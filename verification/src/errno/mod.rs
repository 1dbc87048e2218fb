//! Kernel error codes.
//!
//! A system call hands back one machine word. The words at the very top of
//! the unsigned range stand for errors: such a word is the two's complement
//! of the error code.
use crate::text::{decimal, hex, push_decimal, push_hex, push_signed_decimal, signed_decimal};
use vstd::prelude::*;
use vstd::string::*;

pub mod io;
pub mod table;

verus! {

/// An error code of the kernel. Equality and order are those of the code.
#[derive(Copy, Clone, Debug, PartialEq, Eq, Structural, PartialOrd, Ord, Hash)]
pub struct Errno(pub(crate) i32);

/// Whether a word returned by a system call stands for an error.
pub open spec fn is_error_word(word: usize) -> bool {
    word > usize::MAX - 4096
}

/// The error code that an error word stands for: the word negated in two's
/// complement.
pub open spec fn error_code(word: usize) -> int {
    usize::MAX - word + 1
}

/// The magnitude of a code.
pub open spec fn magnitude(code: i32) -> nat {
    if code < 0 {
        (-code) as nat
    } else {
        code as nat
    }
}

/// What an error code prints as: the negated code with name and description
/// where the table lists it; else the magnitude of the code while it is below
/// the limit; else the code in hexadecimal.
pub open spec fn display(code: i32) -> Seq<char> {
    match table::entry(code) {
        Some((name, desc)) => signed_decimal(-code) + seq![' '] + name@ + seq![' ', '('] + desc@
            + seq![')'],
        None => if code < 4096 {
            decimal(magnitude(code))
        } else {
            "Unknown errno "@ + hex(code as nat)
        },
    }
}

/// What an error code prints as for debugging: its name where the table has
/// one, else the code in brackets.
pub open spec fn debug(code: i32) -> Seq<char> {
    match table::entry(code) {
        Some((name, _)) => name@,
        None => "Errno("@ + signed_decimal(code as int) + seq![')'],
    }
}

impl Errno {
    /// The raw code.
    pub closed spec fn code(self) -> i32 {
        self.0
    }

    pub fn new(num: i32) -> (r: Self)
        ensures
            r.code() == num,
    {
        Errno(num)
    }

    pub fn into_raw(self) -> (r: i32)
        ensures
            r == self.code(),
    {
        self.0
    }

    /// Whether the code lies below the kernel's limit of 4096.
    pub fn is_valid(&self) -> (r: bool)
        ensures
            r == (self.code() < 4096),
    {
        self.0 < 4096
    }

    /// Classifies the word that a system call returned: an error word gives
    /// its code, any other word is the call's result.
    pub fn from_ret(value: usize) -> (r: Result<usize, Errno>)
        ensures
            r is Err <==> is_error_word(value),
            r matches Ok(v) ==> v == value,
            r matches Err(e) ==> e.code() == error_code(value),
    {
        if value > usize::MAX - 4096 {
            let code: usize = usize::MAX - value + 1;
            Err(Errno(code as i32))
        } else {
            Ok(value)
        }
    }

    /// The symbolic name of the code.
    pub fn name(&self) -> (r: Option<&'static str>)
        ensures
            r == match table::entry(self.code()) {
                Some((name, _)) => Some(name),
                None => None,
            },
    {
        match self.name_and_description() {
            Some(x) => Some(x.0),
            None => None,
        }
    }

    /// The description of the code.
    pub fn description(&self) -> (r: Option<&'static str>)
        ensures
            r == match table::entry(self.code()) {
                Some((_, desc)) => Some(desc),
                None => None,
            },
    {
        match self.name_and_description() {
            Some(x) => Some(x.1),
            None => None,
        }
    }

    /// The error of an operating-system error code, if there is one.
    pub fn from_raw_os_error(code: Option<i32>) -> (r: Option<Self>)
        ensures
            r is Some <==> code is Some,
            r matches Some(e) ==> e.code() == code->0,
    {
        match code {
            Some(c) => Some(Errno(c)),
            None => None,
        }
    }

    /// The text of the error. It exists for every code.
    pub fn to_string(&self) -> (r: String)
        ensures
            r@ == display(self.code()),
    {
        let mut out = String::new();
        match self.name_and_description() {
            Some((name, desc)) => {
                proof {
                    reveal_strlit(" ");
                    reveal_strlit(" (");
                    reveal_strlit(")");
                }
                assert(-4096 < self.0 < 4096);
                let negated: i32 = -self.0;
                push_signed_decimal(&mut out, negated as i64);
                out.append(" ");
                out.append(name);
                out.append(" (");
                out.append(desc);
                out.append(")");
                assert(out@ =~= display(self.code()));
            },
            None => {
                if self.is_valid() {
                    let m: u64 = if self.0 < 0 {
                        (-(self.0 as i64)) as u64
                    } else {
                        self.0 as u64
                    };
                    push_decimal(&mut out, m);
                    assert(out@ =~= display(self.code()));
                } else {
                    out.append("Unknown errno ");
                    push_hex(&mut out, self.0 as u64);
                    assert(out@ =~= display(self.code()));
                }
            },
        }
        out
    }

    /// The text of the error for debugging.
    pub fn to_debug_string(&self) -> (r: String)
        ensures
            r@ == debug(self.code()),
    {
        let mut out = String::new();
        match self.name() {
            Some(name) => {
                out.append(name);
                assert(out@ =~= debug(self.code()));
            },
            None => {
                proof {
                    reveal_strlit(")");
                }
                out.append("Errno(");
                push_signed_decimal(&mut out, self.0 as i64);
                out.append(")");
                assert(out@ =~= debug(self.code()));
            },
        }
        out
    }
}

/// The boundary between results and errors lies at the same distance from the
/// top of the range on every architecture: the word 4096 below the largest is
/// a result, the next word is an error, and the largest word is error 1.
pub proof fn lemma_error_word_boundary()
    ensures
        !is_error_word((usize::MAX - 4096) as usize),
        is_error_word((usize::MAX - 4095) as usize),
        error_code((usize::MAX - 4095) as usize) == 4096,
        is_error_word(usize::MAX),
        error_code(usize::MAX) == 1,
        forall|w: usize| is_error_word(w) ==> 1 <= #[trigger] error_code(w) <= 4096,
{
}

} // verus!
