//! The string bridge: converts a native immutable string handle into an owned
//! byte sequence with a two-phase length-then-copy query. A [`NativeString`]
//! models what the host holds behind one handle — the UTF-8 bytes a
//! conversion yields and the character count its length query reports; the
//! process that talks to the live host performs the raw calls themselves. A
//! null handle yields an empty sequence without touching the host at all.

use vstd::prelude::*;

verus! {

/// What the host holds behind one non-null string handle: the character count
/// its length query reports, and the UTF-8 bytes a conversion yields.
pub struct NativeString {
    length: usize,
    bytes: Vec<u8>,
}

impl NativeString {
    /// The reported character count.
    pub closed spec fn spec_length(&self) -> usize {
        self.length
    }

    /// The UTF-8 bytes a conversion yields.
    pub closed spec fn spec_bytes(&self) -> Seq<u8> {
        self.bytes@
    }

    /// The host's strings convert to no bytes exactly when they have no
    /// characters.
    pub open spec fn wf(&self) -> bool {
        (self.spec_length() == 0) <==> (self.spec_bytes().len() == 0)
    }

    pub fn new(bytes: Vec<u8>, length: usize) -> (r: Self)
        requires
            (length == 0) <==> (bytes@.len() == 0),
        ensures
            r.wf(),
            r.spec_bytes() == bytes@,
            r.spec_length() == length,
    {
        NativeString { length, bytes }
    }

    /// The length query: the string's character count.
    pub fn get_length(&self) -> (r: usize)
        ensures
            r == self.spec_length(),
    {
        self.length
    }

    /// The sizing pass of the conversion: a null destination, so nothing is
    /// copied; the host reports how many characters it converted and how many
    /// bytes a full conversion needs.
    pub fn get_bytes_size(&self) -> (r: (usize, usize))
        ensures
            r.0 == self.spec_length(),
            r.1 == self.spec_bytes().len(),
    {
        (self.length, self.bytes.len())
    }

    /// The copy pass of the conversion: fills a buffer of the required size
    /// and reports the converted character count again.
    pub fn copy_bytes(&self) -> (r: (usize, Vec<u8>))
        ensures
            r.0 == self.spec_length(),
            r.1@ == self.spec_bytes(),
    {
        let mut buffer: Vec<u8> = Vec::new();
        let mut i: usize = 0;
        proof {
            assert(buffer@ =~= self.spec_bytes().take(0));
        }
        while i < self.bytes.len()
            invariant
                i <= self.spec_bytes().len(),
                buffer@ == self.spec_bytes().take(i as int),
            decreases self.spec_bytes().len() - i,
        {
            buffer.push(self.bytes[i]);
            proof {
                assert(buffer@ =~= self.spec_bytes().take(i + 1));
            }
            i = i + 1;
        }
        proof {
            assert(buffer@ =~= self.spec_bytes());
        }
        (self.length, buffer)
    }
}

/// An owning wrapper around a native string handle; a null handle is `None`.
/// The process talking to the live host releases the real handle exactly once,
/// when its wrapper goes out of scope.
pub struct StringRef {
    native: Option<NativeString>,
}

impl StringRef {
    /// The string behind the handle, if the handle is non-null.
    pub closed spec fn spec_native(&self) -> Option<NativeString> {
        self.native
    }

    /// The byte sequence the bridge owes: empty for a null handle, the
    /// string's UTF-8 bytes otherwise.
    pub open spec fn spec_utf8(&self) -> Seq<u8> {
        match self.spec_native() {
            Some(ns) => ns.spec_bytes(),
            None => Seq::empty(),
        }
    }

    /// A wrapped handle is well-formed when the string behind it is.
    pub open spec fn wf(&self) -> bool {
        self.spec_native() matches Some(ns) ==> ns.wf()
    }

    pub fn new(native: Option<NativeString>) -> (r: Self)
        requires
            native matches Some(ns) ==> ns.wf(),
        ensures
            r.wf(),
            r.spec_native() == native,
    {
        StringRef { native }
    }

    /// Converts the string to its owned UTF-8 bytes by the two-phase
    /// length-then-copy query. A null handle and a zero-length string both
    /// yield an empty sequence; the character counts both passes report must
    /// match the length query — here that is proved rather than asserted at
    /// run time.
    pub fn to_utf8(&self) -> (r: Vec<u8>)
        requires
            self.wf(),
        ensures
            r@ == self.spec_utf8(),
    {
        let ns = match &self.native {
            None => {
                return Vec::new();
            },
            Some(ns) => ns,
        };
        let length = ns.get_length();
        if length == 0 {
            return Vec::new();
        }
        let (converted, size) = ns.get_bytes_size();
        assert(converted == length);
        assert(size > 0);
        let (converted_again, buffer) = ns.copy_bytes();
        assert(converted_again == length);
        assert(buffer@.len() == size);
        buffer
    }
}

impl Default for StringRef {
    /// The wrapper around a null handle.
    fn default() -> (r: Self)
        ensures
            r.wf(),
            r.spec_native() is None,
    {
        StringRef { native: None }
    }
}

} // verus!
