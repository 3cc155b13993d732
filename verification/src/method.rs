//! HTTP methods, modelled as a closed set of standard verbs plus extension
//! tokens that follow the HTTP token grammar.

use vstd::prelude::*;

verus! {

/// An HTTP method: one of the nine standard verbs, or an extension token.
///
/// An `Extension` holds the raw token bytes; a well-formed `Extension` never
/// spells one of the standard verbs, so the token bytes identify the method.
pub enum Method {
    Get,
    Post,
    Put,
    Patch,
    Delete,
    Head,
    Options,
    Connect,
    Trace,
    Extension(Vec<u8>),
}

/// Whether `b` may appear in an HTTP method token, as method tokens are
/// conventionally parsed: an ASCII letter or digit, or one of
/// ``! * + - . ^ _ ` | ~``.
pub open spec fn is_tchar(b: u8) -> bool {
    ||| b == ('!' as u8)
    ||| b == ('*' as u8)
    ||| b == ('+' as u8)
    ||| b == ('-' as u8)
    ||| b == ('.' as u8)
    ||| b == ('^' as u8)
    ||| b == ('_' as u8)
    ||| b == ('`' as u8)
    ||| b == ('|' as u8)
    ||| b == ('~' as u8)
    ||| (('0' as u8) <= b && b <= ('9' as u8))
    ||| (('a' as u8) <= b && b <= ('z' as u8))
    ||| (('A' as u8) <= b && b <= ('Z' as u8))
}

/// Whether `s` is a valid HTTP method token: non-empty and made of `tchar`s.
pub open spec fn is_token(s: Seq<u8>) -> bool {
    s.len() > 0 && forall|i: int| 0 <= i < s.len() ==> is_tchar(s[i])
}

pub open spec fn name_get() -> Seq<u8> {
    seq![('G' as u8), ('E' as u8), ('T' as u8)]
}

pub open spec fn name_post() -> Seq<u8> {
    seq![('P' as u8), ('O' as u8), ('S' as u8), ('T' as u8)]
}

pub open spec fn name_put() -> Seq<u8> {
    seq![('P' as u8), ('U' as u8), ('T' as u8)]
}

pub open spec fn name_patch() -> Seq<u8> {
    seq![('P' as u8), ('A' as u8), ('T' as u8), ('C' as u8), ('H' as u8)]
}

pub open spec fn name_delete() -> Seq<u8> {
    seq![('D' as u8), ('E' as u8), ('L' as u8), ('E' as u8), ('T' as u8), ('E' as u8)]
}

pub open spec fn name_head() -> Seq<u8> {
    seq![('H' as u8), ('E' as u8), ('A' as u8), ('D' as u8)]
}

pub open spec fn name_options() -> Seq<u8> {
    seq![('O' as u8), ('P' as u8), ('T' as u8), ('I' as u8), ('O' as u8), ('N' as u8), ('S' as u8)]
}

pub open spec fn name_connect() -> Seq<u8> {
    seq![('C' as u8), ('O' as u8), ('N' as u8), ('N' as u8), ('E' as u8), ('C' as u8), ('T' as u8)]
}

pub open spec fn name_trace() -> Seq<u8> {
    seq![('T' as u8), ('R' as u8), ('A' as u8), ('C' as u8), ('E' as u8)]
}

/// Whether `s` spells one of the nine standard verbs.
pub open spec fn is_standard_name(s: Seq<u8>) -> bool {
    ||| s == name_get()
    ||| s == name_post()
    ||| s == name_put()
    ||| s == name_patch()
    ||| s == name_delete()
    ||| s == name_head()
    ||| s == name_options()
    ||| s == name_connect()
    ||| s == name_trace()
}

/// Every standard verb's name is three to seven bytes of uppercase ASCII
/// letters, and in particular a valid HTTP method token.
pub proof fn lemma_standard_name_bytes(m: Seq<u8>)
    requires
        is_standard_name(m),
    ensures
        3 <= m.len() <= 7,
        is_token(m),
        forall|i: int| 0 <= i < m.len() ==> ('A' as u8) <= #[trigger] m[i] <= ('Z' as u8),
{
    assert forall|i: int| 0 <= i < m.len() implies ('A' as u8) <= #[trigger] m[i] <= ('Z' as u8) by {
        if m == name_get() {
            assert(('A' as u8) <= name_get()[i] <= ('Z' as u8));
        } else if m == name_post() {
            assert(('A' as u8) <= name_post()[i] <= ('Z' as u8));
        } else if m == name_put() {
            assert(('A' as u8) <= name_put()[i] <= ('Z' as u8));
        } else if m == name_patch() {
            assert(('A' as u8) <= name_patch()[i] <= ('Z' as u8));
        } else if m == name_delete() {
            assert(('A' as u8) <= name_delete()[i] <= ('Z' as u8));
        } else if m == name_head() {
            assert(('A' as u8) <= name_head()[i] <= ('Z' as u8));
        } else if m == name_options() {
            assert(('A' as u8) <= name_options()[i] <= ('Z' as u8));
        } else if m == name_connect() {
            assert(('A' as u8) <= name_connect()[i] <= ('Z' as u8));
        } else {
            assert(('A' as u8) <= name_trace()[i] <= ('Z' as u8));
        }
    }
}

impl View for Method {
    type V = Seq<u8>;

    /// The token bytes that spell this method.
    open spec fn view(&self) -> Seq<u8> {
        match self {
            Method::Get => name_get(),
            Method::Post => name_post(),
            Method::Put => name_put(),
            Method::Patch => name_patch(),
            Method::Delete => name_delete(),
            Method::Head => name_head(),
            Method::Options => name_options(),
            Method::Connect => name_connect(),
            Method::Trace => name_trace(),
            Method::Extension(t) => t@,
        }
    }
}

impl Method {
    /// A method is well formed when its token is valid and an `Extension`
    /// never spells a standard verb, so that distinct values have distinct
    /// token bytes.
    pub open spec fn wf(&self) -> bool {
        match self {
            Method::Extension(t) => is_token(t@) && !is_standard_name(t@),
            _ => true,
        }
    }

    /// Parses a method from its token bytes: the standard verbs by exact
    /// (case-sensitive) match, any other valid token as an extension method.
    /// Returns `None` exactly when `s` is not a valid token.
    pub fn parse(s: &[u8]) -> (r: Option<Method>)
        ensures
            r is Some <==> is_token(s@),
            r matches Some(m) ==> m.wf() && m@ == s@,
    {
        let n = s.len();
        if n == 3 && s[0] == ('G' as u8) && s[1] == ('E' as u8) && s[2] == ('T' as u8) {
            proof {
                assert(s@ =~= name_get());
            }
            Some(Method::Get)
        } else if n == 4 && s[0] == ('P' as u8) && s[1] == ('O' as u8) && s[2] == ('S' as u8) && s[3] == ('T' as u8) {
            proof {
                assert(s@ =~= name_post());
            }
            Some(Method::Post)
        } else if n == 3 && s[0] == ('P' as u8) && s[1] == ('U' as u8) && s[2] == ('T' as u8) {
            proof {
                assert(s@ =~= name_put());
            }
            Some(Method::Put)
        } else if n == 5 && s[0] == ('P' as u8) && s[1] == ('A' as u8) && s[2] == ('T' as u8) && s[3] == ('C' as u8) && s[4]
            == ('H' as u8) {
            proof {
                assert(s@ =~= name_patch());
            }
            Some(Method::Patch)
        } else if n == 6 && s[0] == ('D' as u8) && s[1] == ('E' as u8) && s[2] == ('L' as u8) && s[3] == ('E' as u8) && s[4]
            == ('T' as u8) && s[5] == ('E' as u8) {
            proof {
                assert(s@ =~= name_delete());
            }
            Some(Method::Delete)
        } else if n == 4 && s[0] == ('H' as u8) && s[1] == ('E' as u8) && s[2] == ('A' as u8) && s[3] == ('D' as u8) {
            proof {
                assert(s@ =~= name_head());
            }
            Some(Method::Head)
        } else if n == 7 && s[0] == ('O' as u8) && s[1] == ('P' as u8) && s[2] == ('T' as u8) && s[3] == ('I' as u8) && s[4]
            == ('O' as u8) && s[5] == ('N' as u8) && s[6] == ('S' as u8) {
            proof {
                assert(s@ =~= name_options());
            }
            Some(Method::Options)
        } else if n == 7 && s[0] == ('C' as u8) && s[1] == ('O' as u8) && s[2] == ('N' as u8) && s[3] == ('N' as u8) && s[4]
            == ('E' as u8) && s[5] == ('C' as u8) && s[6] == ('T' as u8) {
            proof {
                assert(s@ =~= name_connect());
            }
            Some(Method::Connect)
        } else if n == 5 && s[0] == ('T' as u8) && s[1] == ('R' as u8) && s[2] == ('A' as u8) && s[3] == ('C' as u8) && s[4]
            == ('E' as u8) {
            proof {
                assert(s@ =~= name_trace());
            }
            Some(Method::Trace)
        } else {
            proof {
                assert(!is_standard_name(s@));
            }
            if n == 0 {
                return None;
            }
            let mut i: usize = 0;
            while i < n
                invariant
                    0 < n == s@.len(),
                    i <= n,
                    forall|k: int| 0 <= k < i ==> is_tchar(s@[k]),
                decreases n - i,
            {
                if !tchar(s[i]) {
                    return None;
                }
                i += 1;
            }
            Some(Method::Extension(vstd::slice::slice_to_vec(s)))
        }
    }

    /// Whether the two methods spell the same token, i.e. are the same
    /// method.
    pub fn token_eq(&self, other: &Method) -> (r: bool)
        ensures
            r == (self@ == other@),
    {
        let a = self.token_bytes();
        let b = other.token_bytes();
        if a.len() != b.len() {
            proof {
                assert(self@ != other@);
            }
            return false;
        }
        let n = a.len();
        let mut i: usize = 0;
        while i < n
            invariant
                n == a@.len() == b@.len(),
                a@ == self@,
                b@ == other@,
                i <= n,
                forall|k: int| 0 <= k < i ==> a@[k] == b@[k],
            decreases n - i,
        {
            if a[i] != b[i] {
                proof {
                    assert(self@ != other@);
                }
                return false;
            }
            i += 1;
        }
        proof {
            assert(self@ =~= other@);
        }
        true
    }

    /// The token bytes that spell this method, as a fresh buffer.
    pub fn token_bytes(&self) -> (r: Vec<u8>)
        ensures
            r@ == self@,
    {
        match self {
            Method::Get => {
                let v = vec![('G' as u8), ('E' as u8), ('T' as u8)];
                proof {
                    assert(v@ =~= name_get());
                }
                v
            },
            Method::Post => {
                let v = vec![('P' as u8), ('O' as u8), ('S' as u8), ('T' as u8)];
                proof {
                    assert(v@ =~= name_post());
                }
                v
            },
            Method::Put => {
                let v = vec![('P' as u8), ('U' as u8), ('T' as u8)];
                proof {
                    assert(v@ =~= name_put());
                }
                v
            },
            Method::Patch => {
                let v = vec![('P' as u8), ('A' as u8), ('T' as u8), ('C' as u8), ('H' as u8)];
                proof {
                    assert(v@ =~= name_patch());
                }
                v
            },
            Method::Delete => {
                let v = vec![('D' as u8), ('E' as u8), ('L' as u8), ('E' as u8), ('T' as u8), ('E' as u8)];
                proof {
                    assert(v@ =~= name_delete());
                }
                v
            },
            Method::Head => {
                let v = vec![('H' as u8), ('E' as u8), ('A' as u8), ('D' as u8)];
                proof {
                    assert(v@ =~= name_head());
                }
                v
            },
            Method::Options => {
                let v = vec![('O' as u8), ('P' as u8), ('T' as u8), ('I' as u8), ('O' as u8), ('N' as u8), ('S' as u8)];
                proof {
                    assert(v@ =~= name_options());
                }
                v
            },
            Method::Connect => {
                let v = vec![('C' as u8), ('O' as u8), ('N' as u8), ('N' as u8), ('E' as u8), ('C' as u8), ('T' as u8)];
                proof {
                    assert(v@ =~= name_connect());
                }
                v
            },
            Method::Trace => {
                let v = vec![('T' as u8), ('R' as u8), ('A' as u8), ('C' as u8), ('E' as u8)];
                proof {
                    assert(v@ =~= name_trace());
                }
                v
            },
            Method::Extension(t) => {
                let mut v: Vec<u8> = Vec::new();
                let n = t.len();
                let mut i: usize = 0;
                while i < n
                    invariant
                        n == t@.len(),
                        i <= n,
                        v@ == t@.take(i as int),
                    decreases n - i,
                {
                    v.push(t[i]);
                    proof {
                        assert(v@ =~= t@.take(i + 1));
                    }
                    i += 1;
                }
                proof {
                    assert(t@.take(n as int) =~= t@);
                }
                v
            },
        }
    }
}

/// Whether `b` may appear in an HTTP method token.
pub fn tchar(b: u8) -> (r: bool)
    ensures
        r == is_tchar(b),
{
    b == ('!' as u8) || b == ('*' as u8) || b == ('+' as u8) || b == ('-' as u8) || b
        == ('.' as u8) || b == ('^' as u8) || b == ('_' as u8) || b == ('`' as u8) || b
        == ('|' as u8) || b == ('~' as u8) || (('0' as u8) <= b && b <= ('9' as u8)) || (('a' as u8)
        <= b && b <= ('z' as u8)) || (('A' as u8) <= b && b <= ('Z' as u8))
}

} // verus!
