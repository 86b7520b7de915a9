//! A cartridge: a named raw ROM byte buffer, handed to the core for bulk
//! loading into memory. Reading a ROM file from disk is the surrounding
//! driver's business; the core only ever sees the bytes.

use vstd::prelude::*;

verus! {

/// Represents a GameBoy cartridge with game data.
pub struct Cartridge {
    name: String,
    data: Vec<u8>,
}

impl Cartridge {
    /// The cartridge's name as seen by the specifications.
    pub closed spec fn spec_name(&self) -> Seq<char> {
        self.name@
    }

    /// The cartridge's raw bytes as seen by the specifications.
    pub closed spec fn spec_data(&self) -> Seq<u8> {
        self.data@
    }

    /// Return a new cartridge with no data.
    pub fn new_empty() -> (r: Self)
        ensures
            r.spec_name() == "Empty"@,
            r.spec_data() == Seq::<u8>::empty(),
    {
        Self { name: "Empty".to_owned(), data: Vec::new() }
    }

    /// Build a cartridge from a name and a raw ROM byte buffer.
    pub fn new_from_data(name: String, data: Vec<u8>) -> (r: Self)
        ensures
            r.spec_name() == name@,
            r.spec_data() == data@,
    {
        Self { name, data }
    }

    /// Get the name of this cartridge.
    pub fn get_name(&self) -> (r: &str)
        ensures
            r@ == self.spec_name(),
    {
        self.name.as_str()
    }

    /// Get a reference to the cartridge's raw data.
    pub fn get_data(&self) -> (r: &Vec<u8>)
        ensures
            r@ == self.spec_data(),
    {
        &self.data
    }
}

} // verus!
