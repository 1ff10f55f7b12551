//! The generic contract pair shared by every operation descriptor: how a
//! request is prepared ([`Prepare`]) and how its raw response is interpreted
//! ([`Method`]), together with the ordered name/value mapping ([`Parameters`])
//! used for both query parameters and headers.

use vstd::prelude::*;

verus! {

/// The kind of a remote operation. It tells the dispatcher which HTTP verb
/// and which failure policy class (read-like vs write-like) to use, without
/// the descriptor naming any verb itself.
#[derive(Clone, Copy, Debug, PartialEq, Eq, Structural)]
pub enum Operation {
    Read,
    ReadHeader,
    Create,
    Replace,
    Modify,
}

/// Declares, independently, which response field (if any) holds the decoded
/// result payload and which response field (if any) holds a status code to be
/// checked. Document operations use the response body itself as the result
/// (`result_field` is `None`) and check a fixed status field.
#[derive(Clone, Copy, Debug)]
pub struct RpcReturnType {
    pub result_field: Option<&'static str>,
    pub code_field: Option<&'static str>,
}

/// An ordered mapping of names to values, built by starting empty and
/// inserting one entry per modifier that was explicitly set. Used for both
/// query parameters and headers.
#[derive(Clone, Debug, PartialEq)]
pub struct Parameters {
    entries: Vec<(String, String)>,
}

impl View for Parameters {
    type V = Seq<(Seq<char>, Seq<char>)>;

    closed spec fn view(&self) -> Seq<(Seq<char>, Seq<char>)> {
        self.entries.deep_view()
    }
}

/// The value of the first entry named `name`, if any.
pub open spec fn spec_lookup(s: Seq<(Seq<char>, Seq<char>)>, name: Seq<char>) -> Option<Seq<char>>
    decreases s.len(),
{
    if s.len() == 0 {
        None
    } else if s[0].0 == name {
        Some(s[0].1)
    } else {
        spec_lookup(s.drop_first(), name)
    }
}

/// The singleton entry `(name, value)` when `value` is set, and no entry at
/// all when it is unset. An unset modifier contributes nothing to a mapping.
pub open spec fn opt_entry(name: Seq<char>, value: Option<Seq<char>>) -> Seq<(Seq<char>, Seq<char>)> {
    match value {
        Some(v) => seq![(name, v)],
        None => Seq::empty(),
    }
}

/// A boolean modifier's rendered value: `"true"`/`"false"` when set, absent
/// when unset.
pub open spec fn opt_bool_value(v: Option<bool>) -> Option<Seq<char>> {
    match v {
        Some(b) => Some(crate::protocol::spec_bool_str(b)),
        None => None,
    }
}

impl Parameters {
    /// A fresh, empty mapping.
    pub fn new() -> (r: Parameters)
        ensures
            r@ == Seq::<(Seq<char>, Seq<char>)>::empty(),
    {
        Parameters { entries: Vec::new() }
    }

    /// An empty mapping, for operations that take no parameters at all.
    pub fn empty() -> (r: Parameters)
        ensures
            r@ == Seq::<(Seq<char>, Seq<char>)>::empty(),
    {
        Parameters::new()
    }

    /// Appends the entry `(name, value)` at the end of the mapping.
    pub fn insert(&mut self, name: &str, value: &str)
        ensures
            final(self)@ == old(self)@.push((name@, value@)),
    {
        let pair = (name.to_owned(), value.to_owned());
        self.entries.push(pair);
        proof {
            assert(self.entries.deep_view() =~= old(self).entries.deep_view().push((name@, value@)));
        }
    }

    /// The number of entries.
    pub fn len(&self) -> (n: usize)
        ensures
            n == self@.len(),
    {
        self.entries.len()
    }

    /// Whether the mapping holds no entry.
    pub fn is_empty(&self) -> (r: bool)
        ensures
            r == (self@.len() == 0),
    {
        self.entries.len() == 0
    }

    /// The name of the entry at position `i`.
    pub fn name_at(&self, i: usize) -> (r: &String)
        requires
            i < self@.len(),
        ensures
            r@ == self@[i as int].0,
    {
        &self.entries[i].0
    }

    /// The value of the entry at position `i`.
    pub fn value_at(&self, i: usize) -> (r: &String)
        requires
            i < self@.len(),
        ensures
            r@ == self@[i as int].1,
    {
        &self.entries[i].1
    }

    /// The value of the first entry named `name`, if any.
    pub fn get(&self, name: &str) -> (r: Option<String>)
        ensures
            r is Some <==> spec_lookup(self@, name@) is Some,
            r matches Some(v) ==> spec_lookup(self@, name@) == Some(v@),
    {
        let key: String = name.to_owned();
        let n: usize = self.entries.len();
        let mut i: usize = 0;
        proof {
            assert(self@.skip(0) =~= self@);
        }
        while i < n
            invariant
                i <= n,
                n == self@.len(),
                n == self.entries@.len(),
                key@ == name@,
                spec_lookup(self@, name@) == spec_lookup(self@.skip(i as int), name@),
            decreases n - i,
        {
            proof {
                assert(self@[i as int] == self.entries@[i as int].deep_view());
                assert(self@.skip(i as int)[0] == self@[i as int]);
                assert(self@.skip(i as int).drop_first() =~= self@.skip(i as int + 1));
            }
            if self.entries[i].0 == key {
                return Some(self.entries[i].1.clone());
            }
            i += 1;
        }
        proof {
            assert(self@.skip(n as int) =~= Seq::<(Seq<char>, Seq<char>)>::empty());
        }
        None
    }
}

/// The declaration, per operation, of its result type and of how a raw
/// response maps to it. The dispatcher decodes the response directly into
/// [`Method::Result`], guided by [`Method::return_type`].
pub trait Method {
    type Result;

    /// Which response field holds the result payload, if any.
    spec fn spec_result_field() -> Option<Seq<char>>;

    /// Which response field holds a status code to check, if any.
    spec fn spec_code_field() -> Option<Seq<char>>;

    /// The response-shape declaration handed to the dispatcher.
    fn return_type() -> (rt: RpcReturnType)
        ensures
            (match rt.result_field {
                Some(f) => Self::spec_result_field() == Some(f@),
                None => Self::spec_result_field() is None,
            }),
            (match rt.code_field {
                Some(f) => Self::spec_code_field() == Some(f@),
                None => Self::spec_code_field() is None,
            }),
    ;
}

/// The declaration, per operation, of the pieces of the request: operation
/// kind, path, query parameters, headers, and body content. All are pure
/// functions of the descriptor's own immutable fields.
pub trait Prepare {
    type Content;

    /// The operation kind, as a mathematical value.
    spec fn spec_operation(&self) -> Operation;

    /// The request path, as a sequence of characters.
    spec fn spec_path(&self) -> Seq<char>;

    /// The query parameters, as an ordered sequence of name/value pairs.
    spec fn spec_parameters(&self) -> Seq<(Seq<char>, Seq<char>)>;

    /// The headers, as an ordered sequence of name/value pairs.
    spec fn spec_header(&self) -> Seq<(Seq<char>, Seq<char>)>;

    /// The body content, if the operation carries one.
    spec fn spec_content(&self) -> Option<Self::Content>;

    fn operation(&self) -> (op: Operation)
        ensures
            op == self.spec_operation(),
    ;

    fn path(&self) -> (p: String)
        ensures
            p@ == self.spec_path(),
    ;

    fn parameters(&self) -> (params: Parameters)
        ensures
            params@ == self.spec_parameters(),
    ;

    fn header(&self) -> (header: Parameters)
        ensures
            header@ == self.spec_header(),
    ;

    fn content(&self) -> (c: Option<&Self::Content>)
        ensures
            (match c {
                Some(r) => self.spec_content() == Some(*r),
                None => self.spec_content() is None,
            }),
    ;
}

/// The first entry wins lookup over a concatenation: a leading optional
/// entry either answers the lookup (when set and named `n`) or leaves it to
/// the rest of the mapping.
pub proof fn lemma_lookup_opt_entry(
    name: Seq<char>,
    value: Option<Seq<char>>,
    rest: Seq<(Seq<char>, Seq<char>)>,
    n: Seq<char>,
)
    ensures
        spec_lookup(opt_entry(name, value) + rest, n) == (match value {
            Some(v) => if n == name {
                Some(v)
            } else {
                spec_lookup(rest, n)
            },
            None => spec_lookup(rest, n),
        }),
{
    match value {
        Some(v) => {
            let s = opt_entry(name, value) + rest;
            assert(s[0] == (name, v));
            assert(s.drop_first() =~= rest);
        },
        None => {
            assert(opt_entry(name, value) + rest =~= rest);
        },
    }
}

/// Looking anything up in the empty mapping yields nothing.
pub proof fn lemma_lookup_empty(n: Seq<char>)
    ensures
        spec_lookup(Seq::<(Seq<char>, Seq<char>)>::empty(), n) is None,
{
}

} // verus!
