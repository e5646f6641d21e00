//! The registry of canonical default values for built-in and standard
//! types: numbers and `bool` default to zero/false, `char` to the NUL
//! character, composites to the composite of their parts' defaults, and
//! containers to their empty state.

use vstd::prelude::*;

use crate::ConstDefault;

verus! {

impl ConstDefault for i8 {
    open spec fn is_default(self) -> bool {
        self == 0
    }

    fn const_default() -> (r: Self) {
        0
    }
}

impl ConstDefault for i16 {
    open spec fn is_default(self) -> bool {
        self == 0
    }

    fn const_default() -> (r: Self) {
        0
    }
}

impl ConstDefault for i32 {
    open spec fn is_default(self) -> bool {
        self == 0
    }

    fn const_default() -> (r: Self) {
        0
    }
}

impl ConstDefault for i64 {
    open spec fn is_default(self) -> bool {
        self == 0
    }

    fn const_default() -> (r: Self) {
        0
    }
}

impl ConstDefault for i128 {
    open spec fn is_default(self) -> bool {
        self == 0
    }

    fn const_default() -> (r: Self) {
        0
    }
}

impl ConstDefault for isize {
    open spec fn is_default(self) -> bool {
        self == 0
    }

    fn const_default() -> (r: Self) {
        0
    }
}

impl ConstDefault for u8 {
    open spec fn is_default(self) -> bool {
        self == 0
    }

    fn const_default() -> (r: Self) {
        0
    }
}

impl ConstDefault for u16 {
    open spec fn is_default(self) -> bool {
        self == 0
    }

    fn const_default() -> (r: Self) {
        0
    }
}

impl ConstDefault for u32 {
    open spec fn is_default(self) -> bool {
        self == 0
    }

    fn const_default() -> (r: Self) {
        0
    }
}

impl ConstDefault for u64 {
    open spec fn is_default(self) -> bool {
        self == 0
    }

    fn const_default() -> (r: Self) {
        0
    }
}

impl ConstDefault for u128 {
    open spec fn is_default(self) -> bool {
        self == 0
    }

    fn const_default() -> (r: Self) {
        0
    }
}

impl ConstDefault for usize {
    open spec fn is_default(self) -> bool {
        self == 0
    }

    fn const_default() -> (r: Self) {
        0
    }
}

impl ConstDefault for () {
    open spec fn is_default(self) -> bool {
        true
    }

    fn const_default() -> (r: Self) {
    }
}

impl<T1: ConstDefault> ConstDefault for (T1,) {
    open spec fn is_default(self) -> bool {
        self.0.is_default()
    }

    fn const_default() -> (r: Self) {
        (T1::const_default(),)
    }
}

impl<T1: ConstDefault, T2: ConstDefault> ConstDefault for (T1, T2) {
    open spec fn is_default(self) -> bool {
        self.0.is_default() && self.1.is_default()
    }

    fn const_default() -> (r: Self) {
        (T1::const_default(), T2::const_default())
    }
}

impl<T1: ConstDefault, T2: ConstDefault, T3: ConstDefault> ConstDefault for (T1, T2, T3) {
    open spec fn is_default(self) -> bool {
        self.0.is_default() && self.1.is_default() && self.2.is_default()
    }

    fn const_default() -> (r: Self) {
        (T1::const_default(), T2::const_default(), T3::const_default())
    }
}

impl<T1: ConstDefault, T2: ConstDefault, T3: ConstDefault, T4: ConstDefault> ConstDefault for (T1, T2, T3, T4) {
    open spec fn is_default(self) -> bool {
        self.0.is_default() && self.1.is_default() && self.2.is_default() && self.3.is_default()
    }

    fn const_default() -> (r: Self) {
        (T1::const_default(), T2::const_default(), T3::const_default(), T4::const_default())
    }
}

impl<T1: ConstDefault, T2: ConstDefault, T3: ConstDefault, T4: ConstDefault, T5: ConstDefault> ConstDefault for (T1, T2, T3, T4, T5) {
    open spec fn is_default(self) -> bool {
        self.0.is_default() && self.1.is_default() && self.2.is_default() && self.3.is_default() && self.4.is_default()
    }

    fn const_default() -> (r: Self) {
        (T1::const_default(), T2::const_default(), T3::const_default(), T4::const_default(), T5::const_default())
    }
}

impl<T1: ConstDefault, T2: ConstDefault, T3: ConstDefault, T4: ConstDefault, T5: ConstDefault, T6: ConstDefault> ConstDefault for (T1, T2, T3, T4, T5, T6) {
    open spec fn is_default(self) -> bool {
        self.0.is_default() && self.1.is_default() && self.2.is_default() && self.3.is_default() && self.4.is_default() && self.5.is_default()
    }

    fn const_default() -> (r: Self) {
        (T1::const_default(), T2::const_default(), T3::const_default(), T4::const_default(), T5::const_default(), T6::const_default())
    }
}

impl<T1: ConstDefault, T2: ConstDefault, T3: ConstDefault, T4: ConstDefault, T5: ConstDefault, T6: ConstDefault, T7: ConstDefault> ConstDefault for (T1, T2, T3, T4, T5, T6, T7) {
    open spec fn is_default(self) -> bool {
        self.0.is_default() && self.1.is_default() && self.2.is_default() && self.3.is_default() && self.4.is_default() && self.5.is_default() && self.6.is_default()
    }

    fn const_default() -> (r: Self) {
        (T1::const_default(), T2::const_default(), T3::const_default(), T4::const_default(), T5::const_default(), T6::const_default(), T7::const_default())
    }
}

impl<T1: ConstDefault, T2: ConstDefault, T3: ConstDefault, T4: ConstDefault, T5: ConstDefault, T6: ConstDefault, T7: ConstDefault, T8: ConstDefault> ConstDefault for (T1, T2, T3, T4, T5, T6, T7, T8) {
    open spec fn is_default(self) -> bool {
        self.0.is_default() && self.1.is_default() && self.2.is_default() && self.3.is_default() && self.4.is_default() && self.5.is_default() && self.6.is_default() && self.7.is_default()
    }

    fn const_default() -> (r: Self) {
        (T1::const_default(), T2::const_default(), T3::const_default(), T4::const_default(), T5::const_default(), T6::const_default(), T7::const_default(), T8::const_default())
    }
}

impl<T1: ConstDefault, T2: ConstDefault, T3: ConstDefault, T4: ConstDefault, T5: ConstDefault, T6: ConstDefault, T7: ConstDefault, T8: ConstDefault, T9: ConstDefault> ConstDefault for (T1, T2, T3, T4, T5, T6, T7, T8, T9) {
    open spec fn is_default(self) -> bool {
        self.0.is_default() && self.1.is_default() && self.2.is_default() && self.3.is_default() && self.4.is_default() && self.5.is_default() && self.6.is_default() && self.7.is_default() && self.8.is_default()
    }

    fn const_default() -> (r: Self) {
        (T1::const_default(), T2::const_default(), T3::const_default(), T4::const_default(), T5::const_default(), T6::const_default(), T7::const_default(), T8::const_default(), T9::const_default())
    }
}

impl<T1: ConstDefault, T2: ConstDefault, T3: ConstDefault, T4: ConstDefault, T5: ConstDefault, T6: ConstDefault, T7: ConstDefault, T8: ConstDefault, T9: ConstDefault, T10: ConstDefault> ConstDefault for (T1, T2, T3, T4, T5, T6, T7, T8, T9, T10) {
    open spec fn is_default(self) -> bool {
        self.0.is_default() && self.1.is_default() && self.2.is_default() && self.3.is_default() && self.4.is_default() && self.5.is_default() && self.6.is_default() && self.7.is_default() && self.8.is_default() && self.9.is_default()
    }

    fn const_default() -> (r: Self) {
        (T1::const_default(), T2::const_default(), T3::const_default(), T4::const_default(), T5::const_default(), T6::const_default(), T7::const_default(), T8::const_default(), T9::const_default(), T10::const_default())
    }
}

impl<T1: ConstDefault, T2: ConstDefault, T3: ConstDefault, T4: ConstDefault, T5: ConstDefault, T6: ConstDefault, T7: ConstDefault, T8: ConstDefault, T9: ConstDefault, T10: ConstDefault, T11: ConstDefault> ConstDefault for (T1, T2, T3, T4, T5, T6, T7, T8, T9, T10, T11) {
    open spec fn is_default(self) -> bool {
        self.0.is_default() && self.1.is_default() && self.2.is_default() && self.3.is_default() && self.4.is_default() && self.5.is_default() && self.6.is_default() && self.7.is_default() && self.8.is_default() && self.9.is_default() && self.10.is_default()
    }

    fn const_default() -> (r: Self) {
        (T1::const_default(), T2::const_default(), T3::const_default(), T4::const_default(), T5::const_default(), T6::const_default(), T7::const_default(), T8::const_default(), T9::const_default(), T10::const_default(), T11::const_default())
    }
}

impl<T1: ConstDefault, T2: ConstDefault, T3: ConstDefault, T4: ConstDefault, T5: ConstDefault, T6: ConstDefault, T7: ConstDefault, T8: ConstDefault, T9: ConstDefault, T10: ConstDefault, T11: ConstDefault, T12: ConstDefault> ConstDefault for (T1, T2, T3, T4, T5, T6, T7, T8, T9, T10, T11, T12) {
    open spec fn is_default(self) -> bool {
        self.0.is_default() && self.1.is_default() && self.2.is_default() && self.3.is_default() && self.4.is_default() && self.5.is_default() && self.6.is_default() && self.7.is_default() && self.8.is_default() && self.9.is_default() && self.10.is_default() && self.11.is_default()
    }

    fn const_default() -> (r: Self) {
        (T1::const_default(), T2::const_default(), T3::const_default(), T4::const_default(), T5::const_default(), T6::const_default(), T7::const_default(), T8::const_default(), T9::const_default(), T10::const_default(), T11::const_default(), T12::const_default())
    }
}

impl<T: ConstDefault + Copy, const N: usize> ConstDefault for [T; N] {
    open spec fn is_default(self) -> bool {
        forall|i: int| 0 <= i < N ==> (#[trigger] self@[i]).is_default()
    }

    fn const_default() -> (r: Self) {
        vstd::array::array_fill_for_copy_types(T::const_default())
    }
}

impl<T> ConstDefault for Option<T> {
    open spec fn is_default(self) -> bool {
        self is None
    }

    fn const_default() -> (r: Self) {
        None
    }
}

impl<T> ConstDefault for Vec<T> {
    open spec fn is_default(self) -> bool {
        self@ == Seq::<T>::empty()
    }

    fn const_default() -> (r: Self) {
        Vec::new()
    }
}

impl ConstDefault for String {
    open spec fn is_default(self) -> bool {
        self@ == Seq::<char>::empty()
    }

    fn const_default() -> (r: Self) {
        String::new()
    }
}

impl<'a> ConstDefault for &'a str {
    open spec fn is_default(self) -> bool {
        self@ == Seq::<char>::empty()
    }

    fn const_default() -> (r: Self) {
        let r = "";
        proof {
            reveal_strlit("");
            assert(r@ =~= Seq::<char>::empty());
        }
        r
    }
}

impl ConstDefault for bool {
    open spec fn is_default(self) -> bool {
        self == false
    }

    fn const_default() -> (r: Self) {
        false
    }
}

impl ConstDefault for char {
    open spec fn is_default(self) -> bool {
        self == '\x00'
    }

    fn const_default() -> (r: Self) {
        '\x00'
    }
}

} // verus!
