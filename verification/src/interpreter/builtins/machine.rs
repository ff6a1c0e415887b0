//! The methods of machines.

use vstd::prelude::*;
use crate::interpreter::objects::Machine;
use crate::interpreter::value::{Value, ValueView};

verus! {

impl Machine {
    /// `m.system()`: the name of the operating system.
    pub fn system(&self) -> (r: Value)
        ensures
            r@ == ValueView::String(self.system@),
    {
        Value::String(self.system.clone())
    }

    /// `m.cpu_family()`: the family of the processor.
    pub fn cpu_family(&self) -> (r: Value)
        ensures
            r@ == ValueView::String(self.cpu_family@),
    {
        Value::String(self.cpu_family.clone())
    }

    /// `m.cpu()`: the processor.
    pub fn cpu(&self) -> (r: Value)
        ensures
            r@ == ValueView::String(self.cpu@),
    {
        Value::String(self.cpu.clone())
    }

    /// `m.endian()`: the byte order.
    pub fn endian(&self) -> (r: Value)
        ensures
            r@ == ValueView::String(self.endian@),
    {
        Value::String(self.endian.clone())
    }
}

} // verus!
