//! Traits shared by the memory-mapped components of the system.

use vstd::prelude::*;

verus! {

/// Access a memory mapped component.
pub trait IoAccess {
    fn read_byte(&self, addr: u16) -> u8;

    fn write_byte(&mut self, addr: u16, data: u8);
}

/// A clockable component.
pub trait Clockable {
    fn tick(&mut self);
}

/// A loadable register holding a value of type `T`.
pub trait Register<T> {
    fn load(&mut self, value: T);

    fn value(&self) -> T;
}

} // verus!
