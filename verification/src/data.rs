//! The encrypted parameter block of a private key.

use vstd::prelude::*;

verus! {

/// Length of the initialization vector, in bytes.
pub const DS_IV_LEN: usize = 16;

/// Length of the encrypted parameters, in bytes (12672 bits).
pub const DS_C_LEN: usize = 1584;

/// Largest `rsa_length` the engine supports (RSA 4096).
pub const MAX_RSA_LENGTH: usize = 127;

/// Encrypted private-key parameters, as an offline provisioning step made
/// them. Software cannot read the key out of them.
#[derive(Debug, Clone, Copy, PartialEq, Eq)]
pub struct DsData {
    /// Number of 32-bit words in the RSA key and operands, minus one.
    ///
    /// The engine uses the length encrypted inside `c`, never this value, so
    /// a wrong value here only truncates or extends the result in software.
    rsa_length: usize,
    /// IV value used to encrypt `c`.
    iv: [u8; DS_IV_LEN],
    /// Encrypted parameters, with an encrypted message digest over them.
    c: [u8; DS_C_LEN],
}

/// What a [`DsData`] holds, as plain values.
pub struct DsDataView {
    pub rsa_length: nat,
    pub iv: Seq<u8>,
    pub c: Seq<u8>,
}

impl DsDataView {
    /// The length hint is one the engine supports.
    pub open spec fn well_formed(self) -> bool {
        self.rsa_length <= MAX_RSA_LENGTH
    }

    /// Width of the RSA key and operands, in bits.
    pub open spec fn operand_bits(self) -> nat {
        (self.rsa_length + 1) * 32
    }
}

impl View for DsData {
    type V = DsDataView;

    closed spec fn view(&self) -> DsDataView {
        DsDataView { rsa_length: self.rsa_length as nat, iv: self.iv@, c: self.c@ }
    }
}

impl DsData {
    /// Puts the three parts of a block together. Nothing is checked here:
    /// `Ds::configure` rejects a block whose length hint is out of range.
    pub fn new(rsa_length: usize, iv: [u8; DS_IV_LEN], c: [u8; DS_C_LEN]) -> (data: DsData)
        ensures
            data@ == (DsDataView { rsa_length: rsa_length as nat, iv: iv@, c: c@ }),
    {
        DsData { rsa_length, iv, c }
    }

    pub fn rsa_length(&self) -> (n: usize)
        ensures
            n == self@.rsa_length,
    {
        self.rsa_length
    }

    pub fn iv(&self) -> (iv: &[u8; DS_IV_LEN])
        ensures
            iv@ == self@.iv,
    {
        &self.iv
    }

    pub fn c(&self) -> (c: &[u8; DS_C_LEN])
        ensures
            c@ == self@.c,
    {
        &self.c
    }

    /// Whether the length hint is one the engine supports.
    pub fn is_well_formed(&self) -> (ok: bool)
        ensures
            ok == self@.well_formed(),
    {
        self.rsa_length <= MAX_RSA_LENGTH
    }

    /// Width of the RSA key and operands, in bits: 32 for each word.
    pub fn operand_bits(&self) -> (bits: usize)
        requires
            self@.well_formed(),
        ensures
            bits == self@.operand_bits(),
            32 <= bits <= 4096,
    {
        (self.rsa_length + 1) * 32
    }

    /// Every block has the two fixed lengths.
    pub proof fn law_lengths_are_fixed(self)
        ensures
            self@.iv.len() == DS_IV_LEN,
            self@.c.len() == DS_C_LEN,
    {
    }
}

} // verus!
