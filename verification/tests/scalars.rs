use vecmath::{Integer, One, Signed, Zero};

#[test]
fn zero_of_every_width() {
    assert_eq!(<u8 as Zero>::zero(), 0u8);
    assert_eq!(<i8 as Zero>::zero(), 0i8);
    assert_eq!(<u16 as Zero>::zero(), 0u16);
    assert_eq!(<i16 as Zero>::zero(), 0i16);
    assert_eq!(<u32 as Zero>::zero(), 0u32);
    assert_eq!(<i32 as Zero>::zero(), 0i32);
    assert_eq!(<u64 as Zero>::zero(), 0u64);
    assert_eq!(<i64 as Zero>::zero(), 0i64);
    assert_eq!(<usize as Zero>::zero(), 0usize);
    assert_eq!(<isize as Zero>::zero(), 0isize);
}

#[test]
fn one_of_every_width() {
    assert_eq!(<u8 as One>::one(), 1u8);
    assert_eq!(<i8 as One>::one(), 1i8);
    assert_eq!(<u16 as One>::one(), 1u16);
    assert_eq!(<i16 as One>::one(), 1i16);
    assert_eq!(<u32 as One>::one(), 1u32);
    assert_eq!(<i32 as One>::one(), 1i32);
    assert_eq!(<u64 as One>::one(), 1u64);
    assert_eq!(<i64 as One>::one(), 1i64);
    assert_eq!(<usize as One>::one(), 1usize);
    assert_eq!(<isize as One>::one(), 1isize);
}

#[test]
fn integer_arithmetic_is_exact() {
    assert_eq!(Integer::plus(100i8, 27), 127);
    assert_eq!(Integer::minus(-100i8, 28), -128);
    assert_eq!(Integer::times(-16i8, 8), -128);
    assert_eq!(Integer::plus(200u8, 55), 255);
    assert_eq!(Integer::minus(7u16, 7), 0);
    assert_eq!(Integer::times(65_535u32, 65_537), 4_294_967_295);
    assert_eq!(Integer::times(3_037_000_499i64, 3_037_000_499), 9_223_372_030_926_249_001);
}

#[test]
fn division_rounds_toward_zero() {
    assert_eq!(Integer::over(7i32, 2), 3);
    assert_eq!(Integer::over(-7i32, 2), -3);
    assert_eq!(Integer::over(7i32, -2), -3);
    assert_eq!(Integer::over(-7i32, -2), 3);
    assert_eq!(Integer::over(0i64, -5), 0);
    assert_eq!(Integer::over(-128i8, 1), -128);
    assert_eq!(Integer::over(-127i8, -1), 127);
    assert_eq!(Integer::over(255u8, 2), 127);
    assert_eq!(Integer::over(9usize, 9), 1);
}

#[test]
fn comparison_with_zero_and_equality() {
    assert!(Integer::is_zero(0i16));
    assert!(!Integer::is_zero(-1i16));
    assert!(Integer::is_zero(0u64));
    assert!(Integer::equals(5isize, 5));
    assert!(!Integer::equals(5u8, 6));
}

#[test]
fn negation_of_signed() {
    assert_eq!(Signed::negated(5i8), -5);
    assert_eq!(Signed::negated(-127i8), 127);
    assert_eq!(Signed::negated(0i64), 0);
    assert_eq!(Signed::negated(i32::MAX), -i32::MAX);
    assert_eq!(Signed::negated(-9isize), 9);
}

#[test]
fn helpers_give_the_identities() {
    assert_eq!(vecmath::scalar::zero_of::<i32>(), 0);
    assert_eq!(vecmath::scalar::one_of::<u8>(), 1);
}

#[test]
fn widening_keeps_the_value() {
    assert_eq!(Integer::widen(u64::MAX), 18_446_744_073_709_551_615i128);
    assert_eq!(Integer::widen(i64::MIN), -9_223_372_036_854_775_808i128);
    assert_eq!(Integer::widen(-1i8), -1i128);
    assert_eq!(Integer::widen(255u8), 255i128);
    assert_eq!(Integer::widen(0usize), 0i128);
    assert_eq!(Integer::widen(-7isize), -7i128);
}
