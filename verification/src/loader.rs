//! Loader backends, modelled by the values they put into the machines.
//!
//! The platform work of a backend — opening a library, resolving a symbol,
//! closing a handle — happens outside this crate; its answers enter the
//! aggregate and cell machines as plain handle and address values.  What
//! stands here is the part a backend decides by itself: which handle values
//! are invalid, and what closing does to an aggregate.

use vstd::prelude::*;

use crate::library::CloseableLibrary;
use crate::library::StateModel;

verus! {

/// The capability of closing: a one-way transition that gives the platform
/// handle back and leaves the value ready to be forced anew.
pub trait Close: Sized {
    /// Whether the value is in a state that `close` accepts.
    spec fn can_close(&self) -> bool;

    /// Relates the value before the close, the value after it, and the
    /// handle that is given back for the platform's close call.
    spec fn close_rel(pre: Self, post: Self, handle: usize) -> bool;

    /// Closes the value and hands back the platform handle to release.
    fn close(&mut self) -> (h: usize)
        requires
            old(self).can_close(),
        ensures
            Self::close_rel(*old(self), *final(self), h),
    ;
}

impl Close for CloseableLibrary {
    /// A closeable aggregate can close exactly when it has opened.
    open spec fn can_close(&self) -> bool {
        self@.wf() && self@.state is Loaded
    }

    /// Closing returns the memoized handle and resets the slot, keeping the
    /// candidate list.
    open spec fn close_rel(pre: Self, post: Self, handle: usize) -> bool {
        &&& post@ == pre@.close_step()
        &&& match pre@.state {
            StateModel::Loaded { handle: h, .. } => handle == h,
            _ => false,
        }
    }

    fn close(&mut self) -> (h: usize) {
        CloseableLibrary::close(self)
    }
}

/// The system loader's handle for one opened library: the value the platform
/// dynamic loader returned for it.  Opening and symbol lookup are platform
/// calls whose answers feed [`crate::library::Library`]; the handle value
/// itself is what this crate reasons about.
pub struct SystemLoader {
    /// The raw platform handle; `0` is the never-opened (invalid) handle.
    pub handle: usize,
}

impl SystemLoader {
    /// Wraps a raw handle value as returned by the platform loader.
    pub fn new(handle: usize) -> (r: SystemLoader)
        ensures
            r.handle == handle,
    {
        SystemLoader { handle }
    }

    /// Whether the handle is the invalid (null) handle.
    pub fn is_invalid(&self) -> (r: bool)
        ensures
            r == (self.handle == 0),
    {
        self.handle == 0
    }
}

/// The UTF-16 code units of one character: one unit below `0x10000`, a
/// surrogate pair above.
pub open spec fn utf16_of_char(c: char) -> Seq<u16> {
    if (c as u32) < 0x10000 {
        seq![(c as u32) as u16]
    } else {
        seq![
            (0xD800 + ((c as u32) - 0x10000) / 0x400) as u16,
            (0xDC00 + ((c as u32) - 0x10000) % 0x400) as u16,
        ]
    }
}

/// The UTF-16 code units of a character sequence, in order.
pub open spec fn utf16_units_spec(s: Seq<char>) -> Seq<u16>
    decreases s.len(),
{
    if s.len() == 0 {
        Seq::empty()
    } else {
        utf16_of_char(s[0]) + utf16_units_spec(s.drop_first())
    }
}

/// Encoding one more character appends its units.
pub proof fn lemma_utf16_units_snoc(s: Seq<char>, c: char)
    ensures
        utf16_units_spec(s.push(c)) == utf16_units_spec(s) + utf16_of_char(c),
    decreases s.len(),
{
    reveal_with_fuel(utf16_units_spec, 2);
    if s.len() == 0 {
        assert(s.push(c)[0] == c);
        assert(s.push(c).drop_first() =~= Seq::<char>::empty());
        assert(utf16_units_spec(s.push(c)) =~= utf16_of_char(c));
        assert(utf16_units_spec(s) + utf16_of_char(c) =~= utf16_of_char(c));
    } else {
        assert(s.push(c)[0] == s[0]);
        assert(s.push(c).drop_first() =~= s.drop_first().push(c));
        lemma_utf16_units_snoc(s.drop_first(), c);
        assert(utf16_units_spec(s.push(c)) =~= utf16_units_spec(s) + utf16_of_char(c));
    }
}

/// Encodes a library name's characters as the NUL-terminated wide string the
/// Windows loader's open call takes.
pub fn to_wide_name(chars: &Vec<char>) -> (r: Vec<u16>)
    ensures
        r@ == utf16_units_spec(chars@).push(0u16),
{
    let mut out: Vec<u16> = Vec::new();
    let n = chars.len();
    let mut i: usize = 0;
    proof {
        assert(chars@.subrange(0, 0) =~= Seq::<char>::empty());
        assert(out@ =~= utf16_units_spec(chars@.subrange(0, 0)));
    }
    while i < n
        invariant
            i <= n,
            n == chars@.len(),
            out@ == utf16_units_spec(chars@.subrange(0, i as int)),
        decreases n - i,
    {
        let c = chars[i];
        let ghost prefix = chars@.subrange(0, i as int);
        proof {
            lemma_utf16_units_snoc(prefix, c);
            assert(prefix.push(c) =~= chars@.subrange(0, i as int + 1));
        }
        let v = c as u32;
        if v < 0x10000 {
            out.push(v as u16);
            proof {
                assert(utf16_of_char(c) =~= seq![v as u16]);
                assert(out@ =~= utf16_units_spec(prefix) + utf16_of_char(c));
                assert(out@ =~= utf16_units_spec(chars@.subrange(0, i as int + 1)));
            }
        } else {
            let high = 0xD800 + (v - 0x10000) / 0x400;
            let low = 0xDC00 + (v - 0x10000) % 0x400;
            proof {
                assert(utf16_of_char(c) =~= seq![high as u16, low as u16]);
            }
            out.push(high as u16);
            out.push(low as u16);
            proof {
                assert(out@ =~= utf16_units_spec(prefix) + utf16_of_char(c));
                assert(out@ =~= utf16_units_spec(chars@.subrange(0, i as int + 1)));
            }
        }
        i = i + 1;
    }
    proof {
        assert(chars@.subrange(0, n as int) =~= chars@);
    }
    out.push(0);
    out
}

/// The self loader's handle: a sentinel for the current process, against
/// whose already-loaded images symbols are resolved.  The candidate list of
/// an aggregate bound to this backend is informational only.
pub struct SelfLoader {
    /// The sentinel handle for the current process; `0` is invalid.
    pub handle: usize,
}

impl SelfLoader {
    /// Wraps the current-process sentinel the platform handed out.
    pub fn new(handle: usize) -> (r: SelfLoader)
        ensures
            r.handle == handle,
    {
        SelfLoader { handle }
    }

    /// Whether the handle is the invalid (null) handle.
    pub fn is_invalid(&self) -> (r: bool)
        ensures
            r == (self.handle == 0),
    {
        self.handle == 0
    }
}

} // verus!
