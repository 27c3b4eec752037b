//! Account identifiers: a strictly increasing local sequence together with an
//! origin trace that distinguishes locally created accounts from accounts
//! created through a remote-origin gateway.

use vstd::prelude::*;

verus! {

/// Where an account was created: locally, or through a remote gateway along
/// the given path of chain identifiers.
#[derive(Debug)]
pub enum OriginTrace {
    Local,
    Remote { path: Vec<String> },
}

/// Mathematical image of an `OriginTrace`.
pub enum TraceView {
    Local,
    Remote { path: Seq<Seq<char>> },
}

impl View for OriginTrace {
    type V = TraceView;

    open spec fn view(&self) -> TraceView {
        match self {
            OriginTrace::Local => TraceView::Local,
            OriginTrace::Remote { path } => TraceView::Remote { path: path.deep_view() },
        }
    }
}

/// Identity of one account: `(sequence, origin)` pairs are unique.
#[derive(Debug)]
pub struct AccountIdentifier {
    pub sequence: u64,
    pub origin: OriginTrace,
}

/// Mathematical image of an `AccountIdentifier`.
pub struct IdentifierView {
    pub sequence: u64,
    pub origin: TraceView,
}

impl View for AccountIdentifier {
    type V = IdentifierView;

    open spec fn view(&self) -> IdentifierView {
        IdentifierView { sequence: self.sequence, origin: self.origin@ }
    }
}

/// Copies a list of strings; the deep image is unchanged.
pub fn clone_strings(src: &Vec<String>) -> (r: Vec<String>)
    ensures
        r.deep_view() == src.deep_view(),
{
    let mut r: Vec<String> = Vec::new();
    let mut i: usize = 0;
    while i < src.len()
        invariant
            i <= src.len(),
            r@.len() == i,
            forall|j: int| 0 <= j < i ==> r@[j] == src@[j],
        decreases src.len() - i,
    {
        r.push(src[i].clone());
        i = i + 1;
    }
    proof {
        assert forall|k: int| 0 <= k < r@.len() implies r.deep_view()[k] == src.deep_view()[k] by {
            assert(r@[k] == src@[k]);
        }
        assert(r.deep_view() =~= src.deep_view());
    }
    r
}

fn string_vecs_eq(a: &Vec<String>, b: &Vec<String>) -> (r: bool)
    ensures
        r <==> a.deep_view() == b.deep_view(),
{
    if a.len() != b.len() {
        assert(a.deep_view().len() != b.deep_view().len());
        return false;
    }
    let mut i: usize = 0;
    while i < a.len()
        invariant
            i <= a.len(),
            a.len() == b.len(),
            forall|j: int| 0 <= j < i ==> a.deep_view()[j] == b.deep_view()[j],
        decreases a.len() - i,
    {
        if !(a[i] == b[i]) {
            assert(a.deep_view()[i as int] != b.deep_view()[i as int]);
            return false;
        }
        i = i + 1;
    }
    assert(a.deep_view() =~= b.deep_view());
    true
}

impl Clone for OriginTrace {
    /// The copy has the same image as the original.
    fn clone(&self) -> (res: Self)
        ensures
            res@ == self@,
    {
        match self {
            OriginTrace::Local => OriginTrace::Local,
            OriginTrace::Remote { path } => OriginTrace::Remote { path: clone_strings(path) },
        }
    }
}

impl PartialEq for OriginTrace {
    fn eq(&self, other: &Self) -> (r: bool) {
        match (self, other) {
            (OriginTrace::Local, OriginTrace::Local) => true,
            (OriginTrace::Remote { path: a }, OriginTrace::Remote { path: b }) => string_vecs_eq(
                a,
                b,
            ),
            _ => false,
        }
    }
}

impl vstd::std_specs::cmp::PartialEqSpecImpl for OriginTrace {
    open spec fn obeys_eq_spec() -> bool {
        true
    }

    open spec fn eq_spec(&self, other: &Self) -> bool {
        self@ == other@
    }
}

impl Clone for AccountIdentifier {
    /// The copy has the same image as the original.
    fn clone(&self) -> (res: Self)
        ensures
            res@ == self@,
    {
        AccountIdentifier { sequence: self.sequence, origin: self.origin.clone() }
    }
}

impl PartialEq for AccountIdentifier {
    fn eq(&self, other: &Self) -> (r: bool) {
        self.sequence == other.sequence && self.origin == other.origin
    }
}

impl vstd::std_specs::cmp::PartialEqSpecImpl for AccountIdentifier {
    open spec fn obeys_eq_spec() -> bool {
        true
    }

    open spec fn eq_spec(&self, other: &Self) -> bool {
        self@ == other@
    }
}

/// A chain identifier character: a lowercase letter, a digit, or a dash.
pub open spec fn valid_segment_char(c: char) -> bool {
    (97 <= c as u32 && c as u32 <= 122) || (48 <= c as u32 && c as u32 <= 57) || c as u32 == 45
}

/// A well-formed chain identifier: short and made of valid characters.
pub open spec fn valid_segment(s: Seq<char>) -> bool {
    1 <= s.len() <= 32 && forall|i: int| 0 <= i < s.len() ==> valid_segment_char(s[i])
}

/// A well-formed remote path: a bounded, non-empty list of chain identifiers.
pub open spec fn valid_remote_path(p: Seq<Seq<char>>) -> bool {
    1 <= p.len() <= 8 && forall|i: int| 0 <= i < p.len() ==> valid_segment(p[i])
}

/// A trace that independently verifies as remote: it is tagged remote and its
/// path is well-formed.
pub open spec fn verified_remote(t: TraceView) -> bool {
    t matches TraceView::Remote { path } && valid_remote_path(path)
}

fn check_segment(s: &String) -> (r: bool)
    ensures
        r == valid_segment(s@),
{
    let n = s.as_str().unicode_len();
    if n < 1 || n > 32 {
        return false;
    }
    let mut i: usize = 0;
    while i < n
        invariant
            i <= n,
            n == s@.len(),
            1 <= n <= 32,
            forall|j: int| 0 <= j < i ==> valid_segment_char(s@[j]),
        decreases n - i,
    {
        let c = s.as_str().get_char(i);
        let code = c as u32;
        if !((97 <= code && code <= 122) || (48 <= code && code <= 57) || code == 45) {
            return false;
        }
        i = i + 1;
    }
    true
}

impl OriginTrace {
    /// Succeeds exactly when this trace verifies as a well-formed remote path.
    pub fn verify_remote(&self) -> (r: Result<(), crate::errors::FactoryError>)
        ensures
            r is Ok <==> verified_remote(self@),
            r matches Err(e) ==> e is InvalidTrace,
    {
        match self {
            OriginTrace::Local => Err(crate::errors::FactoryError::InvalidTrace),
            OriginTrace::Remote { path } => {
                if path.len() < 1 || path.len() > 8 {
                    return Err(crate::errors::FactoryError::InvalidTrace);
                }
                let mut i: usize = 0;
                while i < path.len()
                    invariant
                        i <= path.len(),
                        1 <= path.len() <= 8,
                        self@ == (TraceView::Remote { path: path.deep_view() }),
                        forall|j: int| 0 <= j < i ==> valid_segment(path.deep_view()[j]),
                    decreases path.len() - i,
                {
                    if !check_segment(&path[i]) {
                        proof {
                            let p = path.deep_view();
                            assert(p.len() == path@.len());
                            assert(p[i as int] == path@[i as int]@);
                            assert(!valid_segment(p[i as int]));
                            assert(!valid_remote_path(p));
                        }
                        return Err(crate::errors::FactoryError::InvalidTrace);
                    }
                    i = i + 1;
                }
                Ok(())
            },
        }
    }
}

} // verus!
