//! Order-sensitive hashing of a sequence of strings into a 64-bit identity.
//!
//! An [`IdHasher`] feeds each string's UTF-8 bytes, followed by a terminator
//! byte that no UTF-8 encoding contains, into a `DefaultHasher`.  The hasher's
//! abstract state is the sequence of write operations performed so far, so the
//! finished value is a function of exactly the strings written and their
//! order: equal inputs always give equal identities, and the derivation is
//! order-sensitive by construction.

use std::collections::hash_map::DefaultHasher;
use std::hash::Hasher;
use vstd::prelude::*;
use vstd::std_specs::hash::DefaultHasherAdditionalSpecFns;
use vstd::utf8::encode_utf8;

use crate::digits::hex_of;
use crate::digits::u64_to_hex;

verus! {

/// The write operations that feeding one string into the hasher performs:
/// the string's UTF-8 bytes, then a single terminator byte.
pub open spec fn writes_of_str(s: Seq<char>) -> Seq<Seq<u8>> {
    seq![encode_utf8(s), seq![0xffu8]]
}

/// The write operations that feeding `parts` into the hasher performs,
/// in order.
pub open spec fn writes_of(parts: Seq<Seq<char>>) -> Seq<Seq<u8>>
    decreases parts.len(),
{
    if parts.len() == 0 {
        Seq::empty()
    } else {
        writes_of(parts.drop_last()) + writes_of_str(parts.last())
    }
}

/// The 64-bit identity of a sequence of strings: what the hasher's `finish`
/// returns after all of `parts` have been written.
pub open spec fn hash_of_strs(parts: Seq<Seq<char>>) -> u64 {
    DefaultHasher::spec_finish(writes_of(parts))
}

/// The hexadecimal digest text of a sequence of strings.
pub open spec fn digest_of_strs(parts: Seq<Seq<char>>) -> Seq<char> {
    hex_of(hash_of_strs(parts) as nat)
}

/// A hasher that turns an ordered sequence of strings into a 64-bit identity.
pub struct IdHasher {
    hasher: DefaultHasher,
    parts: Ghost<Seq<Seq<char>>>,
}

impl IdHasher {
    /// The strings written so far, in order.
    pub closed spec fn parts(&self) -> Seq<Seq<char>> {
        self.parts@
    }

    /// The hasher's state reflects exactly the strings written so far.
    pub closed spec fn wf(&self) -> bool {
        self.hasher@ == writes_of(self.parts@)
    }

    /// A fresh hasher with nothing written.
    pub fn new() -> (r: IdHasher)
        ensures
            r.wf(),
            r.parts() == Seq::<Seq<char>>::empty(),
    {
        IdHasher { hasher: DefaultHasher::new(), parts: Ghost(Seq::empty()) }
    }

    /// Writes one string: its UTF-8 bytes, then the terminator byte.
    pub fn write_str(&mut self, s: &str)
        requires
            old(self).wf(),
        ensures
            final(self).wf(),
            final(self).parts() == old(self).parts().push(s@),
    {
        self.hasher.write(s.as_bytes());
        let mut terminator: Vec<u8> = Vec::new();
        terminator.push(0xff);
        self.hasher.write(terminator.as_slice());
        proof {
            self.parts@ = self.parts@.push(s@);
            assert(terminator@ =~= seq![0xffu8]);
            assert(self.parts@.drop_last() =~= old(self).parts@);
            assert(self.hasher@ =~= writes_of(self.parts@.drop_last()) + writes_of_str(s@));
        }
    }

    /// The 64-bit identity of the strings written so far.
    pub fn finish(&self) -> (r: u64)
        requires
            self.wf(),
        ensures
            r == hash_of_strs(self.parts()),
    {
        self.hasher.finish()
    }

    /// The hexadecimal digest text of the strings written so far.
    pub fn digest(&self) -> (r: String)
        requires
            self.wf(),
        ensures
            r@ == digest_of_strs(self.parts()),
    {
        u64_to_hex(self.finish())
    }
}

} // verus!
