//! The process arguments that the native application keeps for its whole
//! lifetime.
use vstd::prelude::*;
use vstd::utf8::*;

use crate::text::text_to_native;

verus! {

/// The bytes of one argument as the native side reads it: its UTF-8
/// encoding followed by a terminating zero.
pub open spec fn c_argument(s: Seq<char>) -> Seq<u8> {
    encode_utf8(s).push(0u8)
}

/// Owned copies of the process arguments, in the form the native
/// application is created with.
pub struct AppExtra {
    /// Number of arguments.
    pub argc: i32,
    /// One zero-terminated byte buffer per argument, in order.
    pub args: Vec<Vec<u8>>,
}

impl AppExtra {
    /// Whether the buffers are exactly the zero-terminated encodings of
    /// `args`.
    pub open spec fn holds(&self, args: Seq<String>) -> bool {
        &&& self.argc as int == args.len()
        &&& self.args@.len() == args.len()
        &&& forall|i: int| 0 <= i < args.len() ==> #[trigger] self.args@[i]@ == c_argument(args[i]@)
    }

    /// Captures `args`. Their number must fit the native argument count.
    pub fn new(args: &Vec<String>) -> (r: AppExtra)
        requires
            args@.len() <= i32::MAX,
        ensures
            r.holds(args@),
    {
        let mut bufs: Vec<Vec<u8>> = Vec::new();
        let mut i: usize = 0;
        while i < args.len()
            invariant
                i <= args@.len(),
                bufs@.len() == i,
                forall|k: int| 0 <= k < i ==> #[trigger] bufs@[k]@ == c_argument(args@[k]@),
            decreases args@.len() - i,
        {
            let mut b = text_to_native(args[i].as_str());
            b.push(0u8);
            bufs.push(b);
            i = i + 1;
        }
        AppExtra { argc: args.len() as i32, args: bufs }
    }
}

} // verus!
