//! The `#[yesno(...)]` helper attribute.

use vstd::prelude::*;
use crate::model::{Attribute, NestedMeta};

verus! {

/// Why a `#[yesno(...)]` attribute was refused (spec view).
pub enum AttrFault {
    /// An entry whose path is not the one key this attribute position takes.
    UnexpectedKey(Seq<char>),
    /// The accepted key, without `= "..."` after it; the parser's message.
    InvalidValue(Seq<char>),
    /// The argument list is not well-formed after the entries read so far.
    Malformed(Seq<char>),
}

/// A refused attribute (spec view): which attribute of the list, which entry
/// of its argument list, and why.
pub struct AttrErrorView {
    pub attr: nat,
    pub item: nat,
    pub fault: AttrFault,
}

/// Why a `#[yesno(...)]` attribute was refused.
pub enum AttrErrorKind {
    /// The entry's path is not the expected key, held here.
    UnexpectedKey(String),
    InvalidValue(String),
    Malformed(String),
}

impl View for AttrErrorKind {
    type V = AttrFault;

    open spec fn view(&self) -> AttrFault {
        match self {
            AttrErrorKind::UnexpectedKey(k) => AttrFault::UnexpectedKey(k@),
            AttrErrorKind::InvalidValue(m) => AttrFault::InvalidValue(m@),
            AttrErrorKind::Malformed(m) => AttrFault::Malformed(m@),
        }
    }
}

/// A refused attribute: the index of the attribute in its list, the index of
/// the entry in the attribute's argument list (for `Malformed`, the number of
/// entries read), and why.
pub struct AttrError {
    pub attr: usize,
    pub item: usize,
    pub kind: AttrErrorKind,
}

impl View for AttrError {
    type V = AttrErrorView;

    open spec fn view(&self) -> AttrErrorView {
        AttrErrorView { attr: self.attr as nat, item: self.item as nat, fault: self.kind@ }
    }
}

/// The settings read from the enum's `#[yesno(...)]` attributes.
pub struct YesnoEnumAttr {
    /// The flag name stem given by `name = "..."`, if any.
    pub name: Option<String>,
}

/// The settings read from a variant's `#[yesno(...)]` attributes.
pub struct YesnoVariantAttr {
    /// The flag's help text given by `help = "..."`, if any.
    pub help: Option<String>,
}

pub open spec fn opt_view(o: Option<String>) -> Option<Seq<char>> {
    match o {
        Some(s) => Some(s@),
        None => None,
    }
}

/// The path of the helper attribute.
pub open spec fn yesno_path() -> Seq<char> {
    "yesno"@
}

/// Reading the entries of one `#[yesno(...)]` attribute in order, for the one
/// accepted `key`, starting from the value `found` so far: each entry must
/// have the key as its path and a string literal as its value, and the last
/// such value wins. On a refused entry, its index and the reason.
pub open spec fn items_outcome(items: Seq<NestedMeta>, key: Seq<char>, found: Option<Seq<char>>)
    -> Result<Option<Seq<char>>, (nat, AttrFault)>
    decreases items.len(),
{
    if items.len() == 0 {
        Ok(found)
    } else {
        match items_outcome(items.drop_last(), key, found) {
            Err(e) => Err(e),
            Ok(_) => {
                let m = items.last();
                let i = (items.len() - 1) as nat;
                if m.path@ != key {
                    Err((i, AttrFault::UnexpectedKey(key)))
                } else {
                    match m.value {
                        Ok(v) => Ok(Some(v@)),
                        Err(e) => Err((i, AttrFault::InvalidValue(e@))),
                    }
                }
            },
        }
    }
}

/// Reading a list of attributes in order for the one accepted `key`:
/// attributes whose path is not `yesno` are passed over; in each `yesno`
/// attribute the entries are read as `items_outcome` says, and then the
/// argument list must end well-formed. The first refusal is the result;
/// otherwise the last value given for the key, if any.
pub open spec fn attrs_outcome(attrs: Seq<Attribute>, key: Seq<char>) -> Result<
    Option<Seq<char>>,
    AttrErrorView,
>
    decreases attrs.len(),
{
    if attrs.len() == 0 {
        Ok(None)
    } else {
        match attrs_outcome(attrs.drop_last(), key) {
            Err(e) => Err(e),
            Ok(found) => {
                let a = attrs.last();
                let k = (attrs.len() - 1) as nat;
                if a.path@ != yesno_path() {
                    Ok(found)
                } else {
                    match items_outcome(a.items@, key, found) {
                        Err((i, f)) => Err(AttrErrorView { attr: k, item: i, fault: f }),
                        Ok(v) => match a.trailing_error {
                            Some(e) => Err(
                                AttrErrorView {
                                    attr: k,
                                    item: a.items@.len(),
                                    fault: AttrFault::Malformed(e@),
                                },
                            ),
                            None => Ok(v),
                        },
                    }
                }
            },
        }
    }
}

/// Whether an exec outcome matches a spec outcome.
pub open spec fn outcome_matches(
    r: Result<Option<String>, AttrError>,
    s: Result<Option<Seq<char>>, AttrErrorView>,
) -> bool {
    match (r, s) {
        (Ok(v), Ok(w)) => opt_view(v) == w,
        (Err(e), Err(f)) => e@ == f,
        _ => false,
    }
}

/// Reads the value that the `yesno` attributes of `attrs` give for `key`.
fn parse_yesno_key(attrs: &Vec<Attribute>, key: &str) -> (r: Result<Option<String>, AttrError>)
    ensures
        outcome_matches(r, attrs_outcome(attrs@, key@)),
{
    let yesno = String::from_str("yesno");
    let key_string = String::from_str(key);
    let mut found: Option<String> = None;
    let mut i: usize = 0;
    while i < attrs.len()
        invariant
            i <= attrs@.len(),
            yesno@ == yesno_path(),
            key_string@ == key@,
            attrs_outcome(attrs@.take(i as int), key@) == Ok::<_, AttrErrorView>(opt_view(found)),
        decreases attrs.len() - i,
    {
        assert(attrs@.take(i + 1).drop_last() == attrs@.take(i as int));
        let attr = &attrs[i];
        if attr.path == yesno {
            let items = &attr.items;
            let ghost start = opt_view(found);
            let mut j: usize = 0;
            while j < items.len()
                invariant
                    j <= items@.len(),
                    i < attrs@.len(),
                    *attr == attrs@[i as int],
                    *items == attr.items,
                    attr.path@ == yesno_path(),
                    attrs_outcome(attrs@.take(i as int), key@) == Ok::<_, AttrErrorView>(start),
                    attrs@.take(i + 1).drop_last() == attrs@.take(i as int),
                    key_string@ == key@,
                    items_outcome(items@.take(j as int), key@, start) == Ok::<
                        _,
                        (nat, AttrFault),
                    >(opt_view(found)),
                decreases items.len() - j,
            {
                assert(items@.take(j + 1).drop_last() == items@.take(j as int));
                let m = &items[j];
                if m.path != key_string {
                    assert(items_outcome(items@, key@, start) == Err::<Option<Seq<char>>, _>(
                        (j as nat, AttrFault::UnexpectedKey(key@)),
                    )) by {
                        lemma_items_outcome_err_extends(items@, key@, start, j as int + 1);
                    }
                    proof {
                        lemma_attrs_outcome_err_extends(attrs@, key@, i as int + 1);
                    }
                    return Err(
                        AttrError {
                            attr: i,
                            item: j,
                            kind: AttrErrorKind::UnexpectedKey(key_string),
                        },
                    );
                }
                match &m.value {
                    Ok(v) => {
                        found = Some(v.clone());
                    },
                    Err(e) => {
                        assert(items_outcome(items@, key@, start) == Err::<Option<Seq<char>>, _>(
                            (j as nat, AttrFault::InvalidValue(e@)),
                        )) by {
                            lemma_items_outcome_err_extends(items@, key@, start, j as int + 1);
                        }
                        proof {
                            lemma_attrs_outcome_err_extends(attrs@, key@, i as int + 1);
                        }
                        return Err(
                            AttrError {
                                attr: i,
                                item: j,
                                kind: AttrErrorKind::InvalidValue(e.clone()),
                            },
                        );
                    },
                }
                j = j + 1;
            }
            assert(items@.take(j as int) == items@);
            match &attr.trailing_error {
                Some(e) => {
                    assert(attrs_outcome(attrs@, key@) == attrs_outcome(attrs@.take(i + 1), key@))
                        by {
                        lemma_attrs_outcome_err_extends(attrs@, key@, i as int + 1);
                    }
                    return Err(
                        AttrError { attr: i, item: items.len(), kind: AttrErrorKind::Malformed(e.clone()) },
                    );
                },
                None => {},
            }
        }
        i = i + 1;
    }
    assert(attrs@.take(i as int) == attrs@);
    Ok(found)
}

/// Once reading the first `n` entries is refused, reading all of them is
/// refused the same way.
proof fn lemma_items_outcome_err_extends(
    items: Seq<NestedMeta>,
    key: Seq<char>,
    found: Option<Seq<char>>,
    n: int,
)
    requires
        0 <= n <= items.len(),
        items_outcome(items.take(n), key, found) is Err,
    ensures
        items_outcome(items, key, found) == items_outcome(items.take(n), key, found),
    decreases items.len() - n,
{
    if n < items.len() {
        assert(items.take(n + 1).drop_last() == items.take(n));
        lemma_items_outcome_err_extends(items, key, found, n + 1);
    } else {
        assert(items.take(n) == items);
    }
}

/// Once reading the first `n` attributes is refused, reading all of them is
/// refused the same way.
proof fn lemma_attrs_outcome_err_extends(attrs: Seq<Attribute>, key: Seq<char>, n: int)
    requires
        0 <= n <= attrs.len(),
        attrs_outcome(attrs.take(n), key) is Err,
    ensures
        attrs_outcome(attrs, key) == attrs_outcome(attrs.take(n), key),
    decreases attrs.len() - n,
{
    if n < attrs.len() {
        assert(attrs.take(n + 1).drop_last() == attrs.take(n));
        lemma_attrs_outcome_err_extends(attrs, key, n + 1);
    } else {
        assert(attrs.take(n) == attrs);
    }
}

/// Reads the enum-level `#[yesno(name = "...")]` attributes: `name` is the
/// only key accepted, and the last value given wins.
pub fn parse_yesno_enum_attrs(attrs: &Vec<Attribute>) -> (r: Result<YesnoEnumAttr, AttrError>)
    ensures
        match (r, attrs_outcome(attrs@, "name"@)) {
            (Ok(a), Ok(w)) => opt_view(a.name) == w,
            (Err(e), Err(f)) => e@ == f,
            _ => false,
        },
{
    match parse_yesno_key(attrs, "name") {
        Ok(name) => Ok(YesnoEnumAttr { name }),
        Err(e) => Err(e),
    }
}

/// Reads a variant's `#[yesno(help = "...")]` attributes: `help` is the only
/// key accepted, and the last value given wins.
pub fn parse_yesno_variant_attrs(attrs: &Vec<Attribute>) -> (r: Result<YesnoVariantAttr, AttrError>)
    ensures
        match (r, attrs_outcome(attrs@, "help"@)) {
            (Ok(a), Ok(w)) => opt_view(a.help) == w,
            (Err(e), Err(f)) => e@ == f,
            _ => false,
        },
{
    match parse_yesno_key(attrs, "help") {
        Ok(help) => Ok(YesnoVariantAttr { help }),
        Err(e) => Err(e),
    }
}

} // verus!
