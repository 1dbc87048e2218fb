//! Paths as the kernel takes them: bytes that end in a NUL and hold no other.
use crate::errno::table::ENOENT;
use crate::Errno;
use vstd::prelude::*;

verus! {

/// Whether `s` is a C string: it ends in a NUL and holds no other.
pub open spec fn is_c_string(s: Seq<u8>) -> bool {
    &&& s.len() > 0
    &&& s.last() == 0
    &&& forall|i: int| 0 <= i < s.len() - 1 ==> s[i] != 0
}

/// The bytes of a path without the NUL that may end it.
pub open spec fn path_body(path: Seq<u8>) -> Seq<u8> {
    if path.len() > 0 && path.last() == 0 {
        path.drop_last()
    } else {
        path
    }
}

/// The C string of a path: the path with a NUL at its end, unless it has one
/// there already. A path with a NUL anywhere else has none.
pub open spec fn c_string_of(path: Seq<u8>) -> Option<Seq<u8>> {
    if path_body(path).contains(0u8) {
        None
    } else {
        Some(path_body(path).push(0u8))
    }
}

/// A path that the kernel can take.
#[derive(Debug)]
pub struct CPath {
    bytes: Vec<u8>,
}

impl View for CPath {
    type V = Seq<u8>;

    /// The bytes of the path, the final NUL included.
    closed spec fn view(&self) -> Seq<u8> {
        self.bytes@
    }
}

impl CPath {
    #[verifier::type_invariant]
    spec fn inv(self) -> bool {
        is_c_string(self.bytes@)
    }

    /// The path to hand to the kernel for `path`. A path that contains a NUL
    /// before its end names no file.
    pub fn new(path: &[u8]) -> (r: Result<Self, Errno>)
        ensures
            r is Ok <==> c_string_of(path@) is Some,
            r matches Ok(p) ==> Some(p@) == c_string_of(path@) && is_c_string(p@),
            r matches Err(e) ==> e.code() == ENOENT,
    {
        let n: usize = path.len();
        let body_len: usize = if n > 0 && path[n - 1] == 0 {
            n - 1
        } else {
            n
        };
        let ghost body = path_body(path@);
        assert(body =~= path@.subrange(0, body_len as int));
        let mut bytes: Vec<u8> = Vec::new();
        let mut i: usize = 0;
        while i < body_len
            invariant
                i <= body_len <= path@.len(),
                body == path@.subrange(0, body_len as int),
                body == path_body(path@),
                bytes@ == body.subrange(0, i as int),
                forall|j: int| 0 <= j < i ==> body[j] != 0,
            decreases body_len - i,
        {
            let b: u8 = path[i];
            if b == 0 {
                assert(body[i as int] == 0u8);
                assert(body.contains(0u8));
                return Err(Errno::new(ENOENT));
            }
            bytes.push(b);
            assert(bytes@ =~= body.subrange(0, i + 1));
            i += 1;
        }
        assert(bytes@ =~= body);
        assert(!body.contains(0u8)) by {
            if body.contains(0u8) {
                let j = choose|j: int| 0 <= j < body.len() && body[j] == 0u8;
                assert(body[j] != 0);
            }
        }
        bytes.push(0);
        assert(bytes@ =~= body.push(0u8));
        Ok(CPath { bytes })
    }

    /// The empty path, which stands for the file of the descriptor itself.
    pub fn empty() -> (r: Self)
        ensures
            r@ == seq![0u8],
    {
        let mut bytes: Vec<u8> = Vec::new();
        bytes.push(0);
        assert(bytes@ =~= seq![0u8]);
        CPath { bytes }
    }

    /// The bytes of the path, the final NUL included.
    pub fn as_bytes_with_nul(&self) -> (r: &[u8])
        ensures
            r@ == self@,
            is_c_string(r@),
    {
        proof {
            use_type_invariant(self);
        }
        self.bytes.as_slice()
    }

    /// The number of bytes before the final NUL.
    pub fn len(&self) -> (r: usize)
        ensures
            r == self@.len() - 1,
    {
        proof {
            use_type_invariant(self);
        }
        self.bytes.len() - 1
    }
}

impl Clone for CPath {
    fn clone(&self) -> (r: Self)
        ensures
            r@ == self@,
    {
        proof {
            use_type_invariant(self);
        }
        let bytes = self.bytes.clone();
        assert(bytes@ =~= self.bytes@);
        CPath { bytes }
    }
}

/// The empty path.
pub fn empty_path() -> (r: CPath)
    ensures
        r@ == seq![0u8],
{
    CPath::empty()
}

/// Hands `f` the path as the kernel takes it, and returns what `f` returns.
/// For a path that contains a NUL before its end `f` is not called: no such
/// file exists.
pub fn run_with_cstr<T, F: FnOnce(&CPath) -> Result<T, Errno>>(path: &[u8], f: F) -> (r: Result<
    T,
    Errno,
>)
    requires
        forall|p: &CPath| Some(p@) == c_string_of(path@) ==> call_requires(f, (p,)),
    ensures
        c_string_of(path@) is None ==> (r matches Err(e) && e.code() == ENOENT),
        c_string_of(path@) is Some ==> exists|p: &CPath|
            Some(p@) == c_string_of(path@) && call_ensures(f, (p,), r),
{
    match CPath::new(path) {
        Ok(p) => f(&p),
        Err(e) => Err(e),
    }
}

} // verus!
