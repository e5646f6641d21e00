use const_default::ConstDefault;
use core::fmt::Debug;

/// Checks that the `ConstDefault` and `Default` implementations of a type
/// yield the same value.
fn compare_default_impls<T>()
where
    T: ConstDefault + Default + PartialEq + Debug,
{
    assert_eq!(<T as ConstDefault>::const_default(), <T as Default>::default());
}

#[test]
fn primitive_impls_work() {
    compare_default_impls::<bool>();
    compare_default_impls::<char>();
    compare_default_impls::<i8>();
    compare_default_impls::<i16>();
    compare_default_impls::<i32>();
    compare_default_impls::<i64>();
    compare_default_impls::<i128>();
    compare_default_impls::<isize>();
    compare_default_impls::<u8>();
    compare_default_impls::<u16>();
    compare_default_impls::<u32>();
    compare_default_impls::<u64>();
    compare_default_impls::<u128>();
    compare_default_impls::<usize>();
}

#[test]
fn tuple_impls_work() {
    compare_default_impls::<()>();
    compare_default_impls::<(i8,)>();
    compare_default_impls::<(i8, i16)>();
    compare_default_impls::<(i8, i16, i32)>();
    compare_default_impls::<(i8, i16, i32, i64)>();
    compare_default_impls::<(i8, i16, i32, i64, i128)>();
    compare_default_impls::<(i8, i16, i32, i64, i128, isize)>();
    compare_default_impls::<(i8, i16, i32, i64, i128, isize, u8)>();
    compare_default_impls::<(i8, i16, i32, i64, i128, isize, u8, u16)>();
    compare_default_impls::<(i8, i16, i32, i64, i128, isize, u8, u16, u32)>();
    compare_default_impls::<(i8, i16, i32, i64, i128, isize, u8, u16, u32, u64)>();
    compare_default_impls::<(i8, i16, i32, i64, i128, isize, u8, u16, u32, u64, u128)>();
    compare_default_impls::<(i8, i16, i32, i64, i128, isize, u8, u16, u32, u64, u128, usize)>();
}

#[test]
fn array_impls_work() {
    compare_default_impls::<[(); 0]>();
    compare_default_impls::<[(); 1]>();
    compare_default_impls::<[(); 2]>();
    compare_default_impls::<[(); 3]>();
    compare_default_impls::<[(); 4]>();
    compare_default_impls::<[(); 5]>();
    compare_default_impls::<[(); 6]>();
    compare_default_impls::<[(); 7]>();
    compare_default_impls::<[(); 8]>();
    compare_default_impls::<[(); 9]>();
    compare_default_impls::<[(); 10]>();
    compare_default_impls::<[(); 11]>();
    compare_default_impls::<[(); 12]>();
    compare_default_impls::<[(); 13]>();
    compare_default_impls::<[(); 14]>();
    compare_default_impls::<[(); 15]>();
    compare_default_impls::<[(); 16]>();
    compare_default_impls::<[(); 17]>();
    compare_default_impls::<[(); 18]>();
    compare_default_impls::<[(); 19]>();
    compare_default_impls::<[(); 20]>();
    compare_default_impls::<[(); 21]>();
    compare_default_impls::<[(); 22]>();
    compare_default_impls::<[(); 23]>();
    compare_default_impls::<[(); 24]>();
    compare_default_impls::<[(); 25]>();
    compare_default_impls::<[(); 26]>();
    compare_default_impls::<[(); 27]>();
    compare_default_impls::<[(); 28]>();
    compare_default_impls::<[(); 29]>();
    compare_default_impls::<[(); 30]>();
    compare_default_impls::<[(); 31]>();
    compare_default_impls::<[(); 32]>();
}

#[test]
fn container_impls_are_empty() {
    assert_eq!(<Option<u8> as ConstDefault>::const_default(), None);
    assert_eq!(<Vec<u8> as ConstDefault>::const_default(), Vec::<u8>::new());
    assert_eq!(<String as ConstDefault>::const_default(), String::new());
    assert_eq!(<&str as ConstDefault>::const_default(), "");
}

#[test]
fn nonzero_arrays_are_zero_filled() {
    assert_eq!(<[u8; 4] as ConstDefault>::const_default(), [0u8; 4]);
    assert_eq!(<[(u8, bool); 2] as ConstDefault>::const_default(), [(0u8, false); 2]);
}

#[test]
fn nested_composites_apply_the_rule_recursively() {
    let v = <(u8, (u16, bool), [i32; 2]) as ConstDefault>::const_default();
    assert_eq!(v, (0u8, (0u16, false), [0i32; 2]));
}
