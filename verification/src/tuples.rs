//! Tuples: the same when every position is.

use vstd::prelude::*;
use crate::protocol::IsSame;

verus! {

impl<T1: IsSame> IsSame for (T1,) {
    open spec fn same(&self, other: &(T1,)) -> bool {
        &&& self.0.same(&other.0)
    }

    open spec fn by_content() -> bool {
        &&& T1::by_content()
    }

    fn is_same(&self, other: &(T1,)) -> (r: bool) {
        self.0.is_same(&other.0)
    }
}

impl<T1: IsSame, T2: IsSame> IsSame for (T1, T2) {
    open spec fn same(&self, other: &(T1, T2)) -> bool {
        &&& self.0.same(&other.0)
        &&& self.1.same(&other.1)
    }

    open spec fn by_content() -> bool {
        &&& T1::by_content()
        &&& T2::by_content()
    }

    fn is_same(&self, other: &(T1, T2)) -> (r: bool) {
        self.0.is_same(&other.0)
            && self.1.is_same(&other.1)
    }
}

impl<T1: IsSame, T2: IsSame, T3: IsSame> IsSame for (T1, T2, T3) {
    open spec fn same(&self, other: &(T1, T2, T3)) -> bool {
        &&& self.0.same(&other.0)
        &&& self.1.same(&other.1)
        &&& self.2.same(&other.2)
    }

    open spec fn by_content() -> bool {
        &&& T1::by_content()
        &&& T2::by_content()
        &&& T3::by_content()
    }

    fn is_same(&self, other: &(T1, T2, T3)) -> (r: bool) {
        self.0.is_same(&other.0)
            && self.1.is_same(&other.1)
            && self.2.is_same(&other.2)
    }
}

impl<T1: IsSame, T2: IsSame, T3: IsSame, T4: IsSame> IsSame for (T1, T2, T3, T4) {
    open spec fn same(&self, other: &(T1, T2, T3, T4)) -> bool {
        &&& self.0.same(&other.0)
        &&& self.1.same(&other.1)
        &&& self.2.same(&other.2)
        &&& self.3.same(&other.3)
    }

    open spec fn by_content() -> bool {
        &&& T1::by_content()
        &&& T2::by_content()
        &&& T3::by_content()
        &&& T4::by_content()
    }

    fn is_same(&self, other: &(T1, T2, T3, T4)) -> (r: bool) {
        self.0.is_same(&other.0)
            && self.1.is_same(&other.1)
            && self.2.is_same(&other.2)
            && self.3.is_same(&other.3)
    }
}

impl<T1: IsSame, T2: IsSame, T3: IsSame, T4: IsSame, T5: IsSame> IsSame for (T1, T2, T3, T4, T5) {
    open spec fn same(&self, other: &(T1, T2, T3, T4, T5)) -> bool {
        &&& self.0.same(&other.0)
        &&& self.1.same(&other.1)
        &&& self.2.same(&other.2)
        &&& self.3.same(&other.3)
        &&& self.4.same(&other.4)
    }

    open spec fn by_content() -> bool {
        &&& T1::by_content()
        &&& T2::by_content()
        &&& T3::by_content()
        &&& T4::by_content()
        &&& T5::by_content()
    }

    fn is_same(&self, other: &(T1, T2, T3, T4, T5)) -> (r: bool) {
        self.0.is_same(&other.0)
            && self.1.is_same(&other.1)
            && self.2.is_same(&other.2)
            && self.3.is_same(&other.3)
            && self.4.is_same(&other.4)
    }
}

impl<T1: IsSame, T2: IsSame, T3: IsSame, T4: IsSame, T5: IsSame, T6: IsSame> IsSame for (T1, T2, T3, T4, T5, T6) {
    open spec fn same(&self, other: &(T1, T2, T3, T4, T5, T6)) -> bool {
        &&& self.0.same(&other.0)
        &&& self.1.same(&other.1)
        &&& self.2.same(&other.2)
        &&& self.3.same(&other.3)
        &&& self.4.same(&other.4)
        &&& self.5.same(&other.5)
    }

    open spec fn by_content() -> bool {
        &&& T1::by_content()
        &&& T2::by_content()
        &&& T3::by_content()
        &&& T4::by_content()
        &&& T5::by_content()
        &&& T6::by_content()
    }

    fn is_same(&self, other: &(T1, T2, T3, T4, T5, T6)) -> (r: bool) {
        self.0.is_same(&other.0)
            && self.1.is_same(&other.1)
            && self.2.is_same(&other.2)
            && self.3.is_same(&other.3)
            && self.4.is_same(&other.4)
            && self.5.is_same(&other.5)
    }
}

impl<T1: IsSame, T2: IsSame, T3: IsSame, T4: IsSame, T5: IsSame, T6: IsSame, T7: IsSame> IsSame for (T1, T2, T3, T4, T5, T6, T7) {
    open spec fn same(&self, other: &(T1, T2, T3, T4, T5, T6, T7)) -> bool {
        &&& self.0.same(&other.0)
        &&& self.1.same(&other.1)
        &&& self.2.same(&other.2)
        &&& self.3.same(&other.3)
        &&& self.4.same(&other.4)
        &&& self.5.same(&other.5)
        &&& self.6.same(&other.6)
    }

    open spec fn by_content() -> bool {
        &&& T1::by_content()
        &&& T2::by_content()
        &&& T3::by_content()
        &&& T4::by_content()
        &&& T5::by_content()
        &&& T6::by_content()
        &&& T7::by_content()
    }

    fn is_same(&self, other: &(T1, T2, T3, T4, T5, T6, T7)) -> (r: bool) {
        self.0.is_same(&other.0)
            && self.1.is_same(&other.1)
            && self.2.is_same(&other.2)
            && self.3.is_same(&other.3)
            && self.4.is_same(&other.4)
            && self.5.is_same(&other.5)
            && self.6.is_same(&other.6)
    }
}

impl<T1: IsSame, T2: IsSame, T3: IsSame, T4: IsSame, T5: IsSame, T6: IsSame, T7: IsSame, T8: IsSame> IsSame for (T1, T2, T3, T4, T5, T6, T7, T8) {
    open spec fn same(&self, other: &(T1, T2, T3, T4, T5, T6, T7, T8)) -> bool {
        &&& self.0.same(&other.0)
        &&& self.1.same(&other.1)
        &&& self.2.same(&other.2)
        &&& self.3.same(&other.3)
        &&& self.4.same(&other.4)
        &&& self.5.same(&other.5)
        &&& self.6.same(&other.6)
        &&& self.7.same(&other.7)
    }

    open spec fn by_content() -> bool {
        &&& T1::by_content()
        &&& T2::by_content()
        &&& T3::by_content()
        &&& T4::by_content()
        &&& T5::by_content()
        &&& T6::by_content()
        &&& T7::by_content()
        &&& T8::by_content()
    }

    fn is_same(&self, other: &(T1, T2, T3, T4, T5, T6, T7, T8)) -> (r: bool) {
        self.0.is_same(&other.0)
            && self.1.is_same(&other.1)
            && self.2.is_same(&other.2)
            && self.3.is_same(&other.3)
            && self.4.is_same(&other.4)
            && self.5.is_same(&other.5)
            && self.6.is_same(&other.6)
            && self.7.is_same(&other.7)
    }
}

} // verus!
