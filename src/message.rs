//! A DNS message in wire form. This layer reads and rewrites only the header's
//! 16-bit ID; the rest of the message is carried as it is.

use vstd::prelude::*;

use crate::framing::DoqStreamError;

verus! {

/// The length of a DNS message header: no message is shorter.
pub const HEADER_LEN: usize = 12;

/// The integer that two octets give in network byte order.
pub open spec fn be16(hi: u8, lo: u8) -> nat {
    hi as nat * 256 + lo as nat
}

/// The ID of a DNS message in wire form: its first two octets, big-endian.
pub open spec fn header_id(m: Seq<u8>) -> nat {
    be16(m[0], m[1])
}

/// The message `m` with its ID set to `id`.
pub open spec fn with_id(m: Seq<u8>, id: u16) -> Seq<u8> {
    m.update(0, (id / 256) as u8).update(1, (id % 256) as u8)
}

/// A DNS message held in wire form, at least a header long.
pub struct Message {
    bytes: Vec<u8>,
}

impl View for Message {
    type V = Seq<u8>;

    closed spec fn view(&self) -> Seq<u8> {
        self.bytes@
    }
}

impl Message {
    #[verifier::type_invariant]
    spec fn holds_header(&self) -> bool {
        self.bytes@.len() >= HEADER_LEN
    }

    /// Reads a message from its wire form. Fails with `Serialization` when the
    /// bytes are too short to hold a header.
    pub fn from_vec(bytes: &[u8]) -> (r: Result<Message, DoqStreamError>)
        ensures
            r is Ok <==> bytes@.len() >= HEADER_LEN,
            r matches Ok(m) ==> m@ == bytes@,
            r matches Err(e) ==> e == DoqStreamError::Serialization,
    {
        if bytes.len() < HEADER_LEN {
            return Err(DoqStreamError::Serialization);
        }
        let mut copy: Vec<u8> = Vec::with_capacity(bytes.len());
        let mut i: usize = 0;
        while i < bytes.len()
            invariant
                i <= bytes@.len(),
                copy@ == bytes@.subrange(0, i as int),
            decreases bytes@.len() - i,
        {
            copy.push(bytes[i]);
            i = i + 1;
        }
        assert(copy@ == bytes@);
        Ok(Message { bytes: copy })
    }

    /// The wire form of the message.
    pub fn to_vec(&self) -> (r: Vec<u8>)
        ensures
            r@ == self@,
    {
        let mut copy: Vec<u8> = Vec::with_capacity(self.bytes.len());
        let mut i: usize = 0;
        while i < self.bytes.len()
            invariant
                i <= self.bytes@.len(),
                copy@ == self.bytes@.subrange(0, i as int),
            decreases self.bytes@.len() - i,
        {
            copy.push(self.bytes[i]);
            i = i + 1;
        }
        assert(copy@ == self.bytes@);
        copy
    }

    /// The message's wire form, given up by the message.
    pub fn into_vec(self) -> (r: Vec<u8>)
        ensures
            r@ == self@,
            r@.len() >= HEADER_LEN,
    {
        proof {
            use_type_invariant(&self);
        }
        self.bytes
    }

    /// The length of the message's wire form.
    pub fn len(&self) -> (r: usize)
        ensures
            r == self@.len(),
            r >= HEADER_LEN,
    {
        proof {
            use_type_invariant(self);
        }
        self.bytes.len()
    }

    /// The message ID.
    pub fn id(&self) -> (r: u16)
        ensures
            r == header_id(self@),
    {
        proof {
            use_type_invariant(self);
        }
        self.bytes[0] as u16 * 256 + self.bytes[1] as u16
    }

    /// Sets the message ID; the rest of the message is kept.
    pub fn set_id(&mut self, id: u16)
        ensures
            final(self)@ == with_id(old(self)@, id),
            final(self)@.len() == old(self)@.len(),
    {
        proof {
            use_type_invariant(&*self);
        }
        let mut bytes = self.to_vec();
        bytes.set(0, (id / 256) as u8);
        bytes.set(1, (id % 256) as u8);
        *self = Message { bytes };
    }
}

} // verus!
