//! Plain data model of the relay: account keys, account records, the slot
//! context attached to responses, wire encoding selectors and byte ranges.

use vstd::prelude::*;

verus! {

/// Number of bytes in an account key.
pub const KEY_LEN: usize = 32;

/// Opaque fixed-size binary account identifier, used as a map key everywhere.
#[derive(Debug)]
pub struct Pubkey {
    pub bytes: Vec<u8>,
}

impl View for Pubkey {
    type V = Seq<u8>;

    open spec fn view(&self) -> Seq<u8> {
        self.bytes@
    }
}

/// Copy a byte vector; the result holds exactly the same bytes.
pub fn copy_bytes(v: &Vec<u8>) -> (r: Vec<u8>)
    ensures
        r@ == v@,
{
    let mut r: Vec<u8> = Vec::new();
    let mut i: usize = 0;
    while i < v.len()
        invariant
            i <= v@.len(),
            r@ == v@.take(i as int),
        decreases v@.len() - i,
    {
        r.push(v[i]);
        i = i + 1;
        proof {
            assert(v@.take(i as int) =~= v@.take(i as int - 1).push(v@[i as int - 1]));
        }
    }
    proof {
        assert(v@.take(v@.len() as int) =~= v@);
    }
    r
}

impl Pubkey {
    /// A key is well formed when it holds exactly `KEY_LEN` bytes.
    pub open spec fn wf(&self) -> bool {
        self@.len() == KEY_LEN
    }

    pub fn new(bytes: Vec<u8>) -> (r: Pubkey)
        requires
            bytes@.len() == KEY_LEN,
        ensures
            r@ == bytes@,
            r.wf(),
    {
        Pubkey { bytes }
    }

    /// Byte-for-byte equality of two keys.
    pub fn key_eq(&self, other: &Pubkey) -> (r: bool)
        ensures
            r == (self@ == other@),
    {
        let r = self.bytes == other.bytes;
        proof {
            if r {
                assert(self.bytes@ =~= other.bytes@);
            }
            if self.bytes@ == other.bytes@ {
                assert(r);
            }
        }
        r
    }
}

impl Clone for Pubkey {
    fn clone(&self) -> (r: Self)
        ensures
            r@ == self@,
    {
        Pubkey { bytes: copy_bytes(&self.bytes) }
    }
}

/// Raw byte payload of an account.
pub struct AccountData {
    pub data: Vec<u8>,
}

impl View for AccountData {
    type V = Seq<u8>;

    open spec fn view(&self) -> Seq<u8> {
        self.data@
    }
}

impl Clone for AccountData {
    fn clone(&self) -> (r: Self)
        ensures
            r@ == self@,
    {
        AccountData { data: copy_bytes(&self.data) }
    }
}

/// A blockchain-resident account record.
pub struct AccountInfo {
    pub lamports: u64,
    pub owner: Pubkey,
    pub executable: bool,
    pub rent_epoch: u64,
    pub data: AccountData,
}

/// Mathematical image of an [`AccountInfo`].
pub ghost struct AccountInfoView {
    pub lamports: u64,
    pub owner: Seq<u8>,
    pub executable: bool,
    pub rent_epoch: u64,
    pub data: Seq<u8>,
}

impl View for AccountInfo {
    type V = AccountInfoView;

    open spec fn view(&self) -> AccountInfoView {
        AccountInfoView {
            lamports: self.lamports,
            owner: self.owner@,
            executable: self.executable,
            rent_epoch: self.rent_epoch,
            data: self.data@,
        }
    }
}

impl Clone for AccountInfo {
    fn clone(&self) -> (r: Self)
        ensures
            r@ == self@,
    {
        AccountInfo {
            lamports: self.lamports,
            owner: self.owner.clone(),
            executable: self.executable,
            rent_epoch: self.rent_epoch,
            data: self.data.clone(),
        }
    }
}

/// View of a cache entry's payload: a present account, or cached absence.
pub open spec fn opt_account_view(v: Option<AccountInfo>) -> Option<AccountInfoView> {
    match v {
        Some(a) => Some(a@),
        None => None,
    }
}

/// Copy a cache entry payload.
pub fn copy_entry(v: &Option<AccountInfo>) -> (r: Option<AccountInfo>)
    ensures
        opt_account_view(r) == opt_account_view(*v),
{
    match v {
        Some(a) => Some(a.clone()),
        None => None,
    }
}

/// The slot (blockchain height) at which a response's value is known valid.
#[derive(Clone, Copy, PartialEq, Eq, Structural, Debug)]
pub struct SolanaContext {
    pub slot: u64,
}

/// The wire encodings a caller may ask an account's payload in.
#[derive(Clone, Copy, PartialEq, Eq, Structural, Debug)]
pub enum Encoding {
    Base58,
    Base64,
    Base64Zstd,
}

/// A requested byte range over an account's payload.
#[derive(Clone, Copy, PartialEq, Eq, Structural, Debug)]
pub struct Slice {
    pub offset: usize,
    pub length: usize,
}

} // verus!
