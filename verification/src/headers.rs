//! Header lists, header names, and the headers that open a response to
//! every origin.

use vstd::prelude::*;
use vstd::std_specs::iter::IteratorSpec;

verus! {

/// One header of a request or of a response that the relay sends.
#[derive(Debug, PartialEq, Eq)]
pub struct Header {
    pub name: String,
    pub value: Vec<u8>,
}

impl DeepView for Header {
    type V = (Seq<char>, Seq<u8>);

    open spec fn deep_view(&self) -> (Seq<char>, Seq<u8>) {
        (self.name@, self.value@)
    }
}

/// One header entry as an upstream response carried it. The name is absent
/// where it could not be decoded.
#[derive(Debug, PartialEq, Eq)]
pub struct Field {
    pub name: Option<String>,
    pub value: Vec<u8>,
}

impl DeepView for Field {
    type V = (Option<Seq<char>>, Seq<u8>);

    open spec fn deep_view(&self) -> (Option<Seq<char>>, Seq<u8>) {
        (self.name.deep_view(), self.value@)
    }
}

/// A character with the ASCII capitals taken to their small letters.
pub open spec fn fold(c: char) -> int {
    if 'A' <= c <= 'Z' {
        c as int + 32
    } else {
        c as int
    }
}

/// Two header names are the same name: they differ at most in the case of
/// ASCII letters.
pub open spec fn same_name(a: Seq<char>, b: Seq<char>) -> bool {
    &&& a.len() == b.len()
    &&& forall|i: int| 0 <= i < a.len() ==> fold(a[i]) == fold(b[i])
}

fn fold_char(c: char) -> (n: u32)
    ensures
        n == fold(c),
{
    if 'A' <= c && c <= 'Z' {
        c as u32 + 32
    } else {
        c as u32
    }
}

/// Compares two header names.
pub fn names_match(a: &str, b: &str) -> (same: bool)
    ensures
        same == same_name(a@, b@),
{
    let mut left = a.chars();
    let mut right = b.chars();
    let ghost mut at: int = 0;
    loop
        invariant
            0 <= at <= a@.len(),
            at <= b@.len(),
            left.obeys_prophetic_iter_laws(),
            right.obeys_prophetic_iter_laws(),
            left.remaining() == a@.skip(at),
            right.remaining() == b@.skip(at),
            forall|i: int| 0 <= i < at ==> fold(a@[i]) == fold(b@[i]),
        decreases a@.len() - at,
    {
        let x = left.next();
        let y = right.next();
        match (x, y) {
            (Some(c), Some(d)) => {
                if fold_char(c) != fold_char(d) {
                    return false;
                }
                proof {
                    assert(a@.skip(at).drop_first() == a@.skip(at + 1));
                    assert(b@.skip(at).drop_first() == b@.skip(at + 1));
                    at = at + 1;
                }
            },
            (None, None) => {
                return true;
            },
            _ => {
                return false;
            },
        }
    }
}

/// The name of the header that names the origins a response is open to.
pub const ALLOW_ORIGIN: &'static str = "Access-Control-Allow-Origin";

/// The name of the header that names the request headers a caller may send.
pub const ALLOW_HEADERS: &'static str = "Access-Control-Allow-Headers";

/// The name of the header that names the methods a caller may use.
pub const ALLOW_METHODS: &'static str = "Access-Control-Allow-Methods";

/// The name of the header that says how long a caller may keep the answer
/// to a preflight request.
pub const MAX_AGE: &'static str = "Access-Control-Max-Age";

/// The value that opens a response to every origin, header and method.
pub const ANY: &'static str = "*";

/// The seconds for which a caller may keep a preflight answer: twenty days.
pub const MAX_AGE_SECONDS: &'static str = "1728000";

/// The bytes of an ASCII text.
pub open spec fn bytes_of(text: Seq<char>) -> Seq<u8> {
    Seq::new(text.len(), |i: int| text[i] as u8)
}

/// `name` is the name of one of the four cross-origin headers.
pub open spec fn is_cors_name(name: Seq<char>) -> bool {
    ||| same_name(name, ALLOW_ORIGIN@)
    ||| same_name(name, ALLOW_HEADERS@)
    ||| same_name(name, ALLOW_METHODS@)
    ||| same_name(name, MAX_AGE@)
}

/// The four cross-origin headers, as the relay sets them.
pub open spec fn cors() -> Seq<(Seq<char>, Seq<u8>)> {
    seq![
        (ALLOW_ORIGIN@, bytes_of(ANY@)),
        (ALLOW_HEADERS@, bytes_of(ANY@)),
        (ALLOW_METHODS@, bytes_of(ANY@)),
        (MAX_AGE@, bytes_of(MAX_AGE_SECONDS@)),
    ]
}

/// The upstream entries that are handed on, in their order: those that have
/// a name, but for the ones that carry the name of a cross-origin header.
pub open spec fn kept(fields: Seq<(Option<Seq<char>>, Seq<u8>)>) -> Seq<(Seq<char>, Seq<u8>)>
    decreases fields.len(),
{
    if fields.len() == 0 {
        Seq::empty()
    } else {
        let before = kept(fields.drop_last());
        match fields.last().0 {
            Some(name) => if is_cors_name(name) {
                before
            } else {
                before.push((name, fields.last().1))
            },
            None => before,
        }
    }
}

/// The headers of a relayed response: what is kept of the upstream's, then
/// the four cross-origin headers.
pub open spec fn relayed(fields: Seq<(Option<Seq<char>>, Seq<u8>)>) -> Seq<(Seq<char>, Seq<u8>)> {
    kept(fields) + cors()
}

/// Tells whether a header name is that of a cross-origin header.
pub fn names_cors_header(name: &str) -> (cors: bool)
    ensures
        cors == is_cors_name(name@),
{
    names_match(name, ALLOW_ORIGIN) || names_match(name, ALLOW_HEADERS) || names_match(
        name,
        ALLOW_METHODS,
    ) || names_match(name, MAX_AGE)
}

fn header(name: &str, value: &str) -> (h: Header)
    requires
        value.is_ascii(),
    ensures
        h.deep_view() == (name@, bytes_of(value@)),
{
    broadcast use vstd::string::is_ascii_spec_bytes;

    Header { name: String::from_str(name), value: value.as_bytes_vec() }
}

/// Appends the four cross-origin headers to a header list.
pub fn push_cors(headers: &mut Vec<Header>)
    ensures
        final(headers).deep_view() == old(headers).deep_view() + cors(),
{
    proof {
        reveal_strlit("*");
        reveal_strlit("1728000");
    }
    let ghost before = headers.deep_view();
    headers.push(header(ALLOW_ORIGIN, ANY));
    headers.push(header(ALLOW_HEADERS, ANY));
    headers.push(header(ALLOW_METHODS, ANY));
    headers.push(header(MAX_AGE, MAX_AGE_SECONDS));
    assert(headers.deep_view() =~= before + cors());
}

/// Builds the headers of a relayed response from those of the upstream's.
pub fn relay_headers(fields: Vec<Field>) -> (headers: Vec<Header>)
    ensures
        headers.deep_view() == relayed(fields.deep_view()),
{
    let ghost model = fields.deep_view();
    let mut headers: Vec<Header> = Vec::new();
    assert(headers.deep_view() =~= kept(model.take(0)));
    for field in it: fields
        invariant
            it.seq().len() == model.len(),
            forall|i: int| 0 <= i < model.len() ==> (#[trigger] it.seq()[i]).deep_view() == model[i],
            headers.deep_view() == kept(model.take(it.index() as int)),
    {
        let ghost at = it.index() as int;
        let ghost before = headers.deep_view();
        proof {
            assert(model.take(at + 1).drop_last() =~= model.take(at));
            assert(model.take(at + 1).last() == model[at]);
            assert(field.deep_view() == model[at]);
        }
        let Field { name, value } = field;
        match name {
            Some(name) => {
                if !names_cors_header(name.as_str()) {
                    headers.push(Header { name, value });
                    assert(headers.deep_view() =~= before.push((model[at].0->0, model[at].1)));
                }
            },
            None => {},
        }
    }
    assert(model.take(model.len() as int) =~= model);
    push_cors(&mut headers);
    headers
}

/// The values of the headers of a list that carry `name`, in their order.
pub open spec fn values_named(headers: Seq<(Seq<char>, Seq<u8>)>, name: Seq<char>) -> Seq<Seq<u8>>
    decreases headers.len(),
{
    if headers.len() == 0 {
        Seq::empty()
    } else {
        let before = values_named(headers.drop_last(), name);
        if same_name(headers.last().0, name) {
            before.push(headers.last().1)
        } else {
            before
        }
    }
}

/// The values of the upstream entries that carry `name`, in their order.
pub open spec fn upstream_values(
    fields: Seq<(Option<Seq<char>>, Seq<u8>)>,
    name: Seq<char>,
) -> Seq<Seq<u8>>
    decreases fields.len(),
{
    if fields.len() == 0 {
        Seq::empty()
    } else {
        let before = upstream_values(fields.drop_last(), name);
        match fields.last().0 {
            Some(own) => if same_name(own, name) {
                before.push(fields.last().1)
            } else {
                before
            },
            None => before,
        }
    }
}

/// To be the same name is symmetric and transitive.
pub proof fn lemma_same_name_equivalence(a: Seq<char>, b: Seq<char>, c: Seq<char>)
    ensures
        same_name(a, a),
        same_name(a, b) ==> same_name(b, a),
        same_name(a, b) && same_name(b, c) ==> same_name(a, c),
{
}

/// The headers named in two lists put end to end are those of the first,
/// then those of the second.
pub proof fn lemma_values_named_concat(
    first: Seq<(Seq<char>, Seq<u8>)>,
    second: Seq<(Seq<char>, Seq<u8>)>,
    name: Seq<char>,
)
    ensures
        values_named(first + second, name) == values_named(first, name) + values_named(
            second,
            name,
        ),
    decreases second.len(),
{
    if second.len() == 0 {
        assert(first + second =~= first);
        assert(values_named(first, name) + values_named(second, name) =~= values_named(
            first,
            name,
        ));
    } else {
        lemma_values_named_concat(first, second.drop_last(), name);
        assert((first + second).drop_last() =~= first + second.drop_last());
        assert(values_named(first + second, name) =~= values_named(first, name) + values_named(
            second,
            name,
        ));
    }
}

/// The four cross-origin names are four names, and the relay's own list
/// gives each of them one value.
pub proof fn lemma_cors_own_values(which: int)
    requires
        0 <= which < 4,
    ensures
        is_cors_name(cors()[which].0),
        values_named(cors(), cors()[which].0) == seq![cors()[which].1],
{
    reveal_strlit("Access-Control-Allow-Origin");
    reveal_strlit("Access-Control-Allow-Headers");
    reveal_strlit("Access-Control-Allow-Methods");
    reveal_strlit("Access-Control-Max-Age");
    let list = cors();
    let name = list[which].0;
    assert(ALLOW_ORIGIN@.len() == 27 && MAX_AGE@.len() == 22);
    assert(ALLOW_HEADERS@.len() == 28 && ALLOW_METHODS@.len() == 28);
    assert(ALLOW_HEADERS@[21] == 'H' && ALLOW_METHODS@[21] == 'M');
    assert(forall|i: int, j: int|
        0 <= i < 4 && 0 <= j < 4 ==> (same_name(#[trigger] list[i].0, #[trigger] list[j].0) <==> i
            == j));
    let a = list.drop_last();
    let b = a.drop_last();
    let c = b.drop_last();
    assert(a.last() == list[2] && b.last() == list[1] && c.last() == list[0]);
    assert(values_named(c.drop_last(), name) =~= Seq::empty());
    assert(values_named(c, name) =~= if which == 0 {
        seq![list[which].1]
    } else {
        Seq::empty()
    });
    assert(values_named(b, name) =~= if which <= 1 {
        seq![list[which].1]
    } else {
        Seq::empty()
    });
    assert(values_named(a, name) =~= if which <= 2 {
        seq![list[which].1]
    } else {
        Seq::empty()
    });
    assert(values_named(list, name) =~= seq![list[which].1]);
}

/// No header that is kept of the upstream's carries a cross-origin name.
pub proof fn lemma_kept_has_no_cors(fields: Seq<(Option<Seq<char>>, Seq<u8>)>, name: Seq<char>)
    requires
        is_cors_name(name),
    ensures
        values_named(kept(fields), name) == Seq::<Seq<u8>>::empty(),
    decreases fields.len(),
{
    if fields.len() > 0 {
        lemma_kept_has_no_cors(fields.drop_last(), name);
        match fields.last().0 {
            Some(own) => {
                if !is_cors_name(own) {
                    lemma_same_name_equivalence(own, name, ALLOW_ORIGIN@);
                    lemma_same_name_equivalence(own, name, ALLOW_HEADERS@);
                    lemma_same_name_equivalence(own, name, ALLOW_METHODS@);
                    lemma_same_name_equivalence(own, name, MAX_AGE@);
                    assert(!same_name(own, name));
                    assert(kept(fields).drop_last() =~= kept(fields.drop_last()));
                }
            },
            None => {},
        }
    }
}

/// What is kept of the upstream's headers holds, under every other name,
/// the values that the upstream gave it.
pub proof fn lemma_kept_keeps_others(fields: Seq<(Option<Seq<char>>, Seq<u8>)>, name: Seq<char>)
    requires
        !is_cors_name(name),
    ensures
        values_named(kept(fields), name) == upstream_values(fields, name),
    decreases fields.len(),
{
    if fields.len() > 0 {
        lemma_kept_keeps_others(fields.drop_last(), name);
        match fields.last().0 {
            Some(own) => {
                if is_cors_name(own) {
                    lemma_same_name_equivalence(name, own, ALLOW_ORIGIN@);
                    lemma_same_name_equivalence(name, own, ALLOW_HEADERS@);
                    lemma_same_name_equivalence(name, own, ALLOW_METHODS@);
                    lemma_same_name_equivalence(name, own, MAX_AGE@);
                    lemma_same_name_equivalence(own, name, name);
                    assert(!same_name(own, name));
                } else {
                    assert(kept(fields).drop_last() =~= kept(fields.drop_last()));
                }
            },
            None => {},
        }
    }
}

/// The relay's values win: whatever the upstream sent, the headers of a
/// relayed response give each of the four cross-origin names exactly one
/// value, the relay's.
pub proof fn lemma_cors_values_win(fields: Seq<(Option<Seq<char>>, Seq<u8>)>, which: int)
    requires
        0 <= which < 4,
    ensures
        values_named(relayed(fields), cors()[which].0) == seq![cors()[which].1],
{
    let name = cors()[which].0;
    lemma_cors_own_values(which);
    lemma_kept_has_no_cors(fields, name);
    lemma_values_named_concat(kept(fields), cors(), name);
    assert(Seq::<Seq<u8>>::empty() + seq![cors()[which].1] =~= seq![cors()[which].1]);
}

/// Every other header is copied: under a name that is none of the four,
/// the headers of a relayed response hold the values that the upstream gave
/// it, in the upstream's order.
pub proof fn lemma_other_headers_copied(fields: Seq<(Option<Seq<char>>, Seq<u8>)>, name: Seq<char>)
    requires
        !is_cors_name(name),
    ensures
        values_named(relayed(fields), name) == upstream_values(fields, name),
{
    lemma_kept_keeps_others(fields, name);
    lemma_values_named_concat(kept(fields), cors(), name);
    assert(values_named(cors(), name) =~= Seq::empty()) by {
        lemma_same_name_equivalence(ALLOW_ORIGIN@, name, name);
        lemma_same_name_equivalence(ALLOW_HEADERS@, name, name);
        lemma_same_name_equivalence(ALLOW_METHODS@, name, name);
        lemma_same_name_equivalence(MAX_AGE@, name, name);
        reveal_with_fuel(values_named, 5);
        let list = cors();
        assert(list.drop_last().drop_last().drop_last().drop_last().len() == 0);
    }
    assert(upstream_values(fields, name) + Seq::<Seq<u8>>::empty() =~= upstream_values(
        fields,
        name,
    ));
}

} // verus!
