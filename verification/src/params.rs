//! Parameter rules and per-record enrichment: a record is parsed, best-effort,
//! as a flat field mapping, and each configured parameter whose `record_key` is
//! present contributes one (query key, query value) augmentation, in list
//! order, with an optional prefix and suffix wrapped around the field's value.

use crate::strutil::{opt_str, pairs_view, str_eq};
use vstd::prelude::*;

verus! {

/// One rule mapping a record field to a query-string entry.
///
/// `record_key` names the field to look up; `url_key`, when present, renames
/// the emitted query parameter; `prefix` and `suffix` decorate the value.
#[derive(Debug)]
pub struct Parameter {
    record_key: String,
    url_key: Option<String>,
    prefix: Option<String>,
    suffix: Option<String>,
}

/// The mathematical shape of a [`Parameter`].
pub struct ParameterV {
    pub record_key: Seq<char>,
    pub url_key: Option<Seq<char>>,
    pub prefix: Option<Seq<char>>,
    pub suffix: Option<Seq<char>>,
}

/// The view of an optional owned string.
pub open spec fn opt_view(o: Option<String>) -> Option<Seq<char>> {
    match o {
        Some(s) => Some(s@),
        None => None,
    }
}

impl View for Parameter {
    type V = ParameterV;

    closed spec fn view(&self) -> ParameterV {
        ParameterV {
            record_key: self.record_key@,
            url_key: opt_view(self.url_key),
            prefix: opt_view(self.prefix),
            suffix: opt_view(self.suffix),
        }
    }
}

/// A parameter is well formed when its `record_key` names a field.
pub open spec fn param_wf(p: ParameterV) -> bool {
    p.record_key.len() > 0
}

impl Parameter {
    /// Builds one immutable extraction rule. `record_key` may not be empty.
    pub fn new(
        record_key: String,
        url_key: Option<String>,
        prefix: Option<String>,
        suffix: Option<String>,
    ) -> (r: Parameter)
        requires
            record_key@.len() > 0,
        ensures
            r@ == (ParameterV {
                record_key: record_key@,
                url_key: opt_view(url_key),
                prefix: opt_view(prefix),
                suffix: opt_view(suffix),
            }),
            param_wf(r@),
    {
        Parameter { record_key, url_key, prefix, suffix }
    }
}

/// The views of a sequence of parameters.
pub open spec fn params_view(ps: Seq<Parameter>) -> Seq<ParameterV> {
    ps.map_values(|p: Parameter| p@)
}

/// The query key a parameter emits under: `url_key`, or `record_key` when the
/// former is absent.
pub open spec fn effective_key(p: ParameterV) -> Seq<char> {
    match p.url_key {
        Some(k) => k,
        None => p.record_key,
    }
}

/// The field value wrapped in the parameter's prefix and suffix.
pub open spec fn decorated_value(p: ParameterV, v: Seq<char>) -> Seq<char> {
    opt_str(p.prefix) + v + opt_str(p.suffix)
}

/// The field mapping a record parses to: `None` when the record is not a JSON
/// object, else each field's name mapped to its value's textual form.
pub uninterp spec fn parsed_fields(s: Seq<char>) -> Option<Map<Seq<char>, Seq<char>>>;

/// Relies on `serde_json::from_str` to parse a record into a map of fields and
/// on `serde_json::Value`'s display form to render each field value as text;
/// together they are a function of the record text alone, named
/// [`parsed_fields`]. The pairs come back in no fixed order.
#[verifier::external_body]
fn parse_record_fields(record: &str) -> (r: Option<Vec<(String, String)>>)
    ensures
        r is Some <==> parsed_fields(record@) is Some,
        r is Some ==> {
            let m = parsed_fields(record@)->0;
            let v = r->0;
            &&& forall|i: int|
                0 <= i < v@.len() ==> m.contains_key(#[trigger] v@[i].0@) && m[v@[i].0@]
                    == v@[i].1@
            &&& forall|k: Seq<char>|
                m.contains_key(k) ==> exists|i: int| 0 <= i < v@.len() && #[trigger] v@[i].0@ == k
            &&& forall|i: int, j: int| 0 <= i < j < v@.len() ==> v@[i].0@ != v@[j].0@
        },
{
    match serde_json::from_str::<std::collections::HashMap<String, serde_json::Value>>(record) {
        Ok(m) => Some(m.into_iter().map(|(k, v)| (k, v.to_string())).collect()),
        Err(_) => None,
    }
}

/// What a query key is percent-encoded to.
pub uninterp spec fn url_encoded(s: Seq<char>) -> Seq<char>;

/// Relies on `urlencoding::encode`: percent-encodes every byte except ASCII
/// alphanumerics and `-`, `_`, `.`, `~`; a pure function of its input, named
/// [`url_encoded`].
#[verifier::external_body]
fn encode_key(s: &str) -> (r: String)
    ensures
        r@ == url_encoded(s@),
{
    urlencoding::encode(s).into_owned()
}

/// The value stored under `key` in a list of (field, value) pairs, if any.
fn lookup_field(fields: &Vec<(String, String)>, key: &str) -> (r: Option<String>)
    ensures
        match r {
            Some(v) => exists|i: int|
                0 <= i < fields@.len() && (#[trigger] fields@[i]).0@ == key@ && fields@[i].1@
                    == v@,
            None => forall|i: int| 0 <= i < fields@.len() ==> (#[trigger] fields@[i]).0@ != key@,
        },
{
    let n = fields.len();
    let mut i: usize = 0;
    while i < n
        invariant
            n == fields@.len(),
            0 <= i <= n,
            forall|j: int| 0 <= j < i ==> (#[trigger] fields@[j]).0@ != key@,
        decreases n - i,
    {
        if str_eq(fields[i].0.as_str(), key) {
            return Some(fields[i].1.clone());
        }
        i += 1;
    }
    None
}

/// The augmentations the parameters draw from the field mapping `m`, in
/// parameter-list order; an absent `record_key` contributes nothing.
pub open spec fn enrich_fields_spec(
    m: Map<Seq<char>, Seq<char>>,
    params: Seq<ParameterV>,
) -> Seq<(Seq<char>, Seq<char>)>
    decreases params.len(),
{
    if params.len() == 0 {
        Seq::empty()
    } else {
        let head = if m.contains_key(params[0].record_key) {
            seq![
                (
                    url_encoded(effective_key(params[0])),
                    decorated_value(params[0], m[params[0].record_key]),
                ),
            ]
        } else {
            Seq::empty()
        };
        head + enrich_fields_spec(m, params.drop_first())
    }
}

/// The augmentations a record yields: empty when no parameter is configured or
/// the record does not parse as a field mapping.
pub open spec fn enrich_spec(rec: Seq<char>, params: Seq<ParameterV>) -> Seq<
    (Seq<char>, Seq<char>),
> {
    if params.len() == 0 {
        Seq::empty()
    } else {
        match parsed_fields(rec) {
            Some(m) => enrich_fields_spec(m, params),
            None => Seq::empty(),
        }
    }
}

/// Derives the (query key, query value) augmentations of one record. An empty
/// parameter list returns at once, without the record ever being parsed;
/// an unparseable record yields no augmentation.
pub fn enrich(record: &str, params: &Vec<Parameter>) -> (r: Vec<(String, String)>)
    ensures
        pairs_view(r@) == enrich_spec(record@, params_view(params@)),
{
    let mut out: Vec<(String, String)> = Vec::new();
    if params.len() == 0 {
        proof {
            assert(pairs_view(out@) =~= Seq::<(Seq<char>, Seq<char>)>::empty());
        }
        return out;
    }
    let fields = match parse_record_fields(record) {
        Some(fields) => fields,
        None => {
            proof {
                assert(pairs_view(out@) =~= Seq::<(Seq<char>, Seq<char>)>::empty());
            }
            return out;
        },
    };
    let ghost m = parsed_fields(record@)->0;
    let ghost pv = params_view(params@);
    let n = params.len();
    let mut idx: usize = 0;
    proof {
        assert(pv.skip(0) =~= pv);
        assert(pairs_view(out@) =~= Seq::<(Seq<char>, Seq<char>)>::empty());
    }
    while idx < n
        invariant
            n == params@.len(),
            0 <= idx <= n,
            pv == params_view(params@),
            pv.len() == n,
            parsed_fields(record@) is Some,
            m == parsed_fields(record@)->0,
            forall|i: int|
                0 <= i < fields@.len() ==> m.contains_key(#[trigger] fields@[i].0@) && m[fields@[i].0@]
                    == fields@[i].1@,
            forall|k: Seq<char>|
                m.contains_key(k) ==> exists|i: int|
                    0 <= i < fields@.len() && #[trigger] fields@[i].0@ == k,
            enrich_fields_spec(m, pv) == pairs_view(out@) + enrich_fields_spec(
                m,
                pv.skip(idx as int),
            ),
        decreases n - idx,
    {
        proof {
            assert(pv[idx as int] == params@[idx as int]@);
            assert(pv.skip(idx as int)[0] == pv[idx as int]);
            assert(pv.skip(idx as int).drop_first() =~= pv.skip(idx as int + 1));
        }
        let p = &params[idx];
        match lookup_field(&fields, p.record_key.as_str()) {
            Some(value) => {
                proof {
                    let w = choose|i: int|
                        0 <= i < fields@.len() && (#[trigger] fields@[i]).0@ == p.record_key@
                            && fields@[i].1@ == value@;
                    assert(m.contains_key(fields@[w].0@));
                    assert(m.contains_key(p@.record_key) && m[p@.record_key] == value@);
                }
                let decorated = match &p.prefix {
                    Some(pre) => pre.clone().concat(value.as_str()),
                    None => value,
                };
                let full = match &p.suffix {
                    Some(suf) => decorated.concat(suf.as_str()),
                    None => decorated,
                };
                let key = match &p.url_key {
                    Some(k) => encode_key(k.as_str()),
                    None => encode_key(p.record_key.as_str()),
                };
                proof {
                    assert(key@ == url_encoded(effective_key(p@)));
                    assert(full@ =~= decorated_value(p@, m[p@.record_key]));
                }
                let ghost prev = out@;
                out.push((key, full));
                proof {
                    assert(pairs_view(out@) =~= pairs_view(prev) + seq![(key@, full@)]);
                    assert(enrich_fields_spec(m, pv.skip(idx as int)) == seq![(key@, full@)]
                        + enrich_fields_spec(m, pv.skip(idx as int + 1)));
                    assert(enrich_fields_spec(m, pv) =~= pairs_view(out@) + enrich_fields_spec(
                        m,
                        pv.skip(idx as int + 1),
                    ));
                }
            },
            None => {
                proof {
                    if m.contains_key(p@.record_key) {
                        let w = choose|i: int|
                            0 <= i < fields@.len() && #[trigger] fields@[i].0@ == p@.record_key;
                        assert(fields@[w].0@ == p@.record_key);
                        assert(false);
                    }
                    assert(enrich_fields_spec(m, pv.skip(idx as int)) == enrich_fields_spec(
                        m,
                        pv.skip(idx as int + 1),
                    ));
                }
            },
        }
        idx += 1;
    }
    proof {
        assert(pv.skip(n as int) =~= Seq::<ParameterV>::empty());
        assert(enrich_fields_spec(m, pv) =~= pairs_view(out@));
    }
    out
}

/// For a parseable record, every parameter whose `record_key` is present
/// contributes exactly one augmentation, in parameter-list order, with the
/// prefix and suffix wrapped exactly once around the field's value.
pub proof fn lemma_enrich_all_present(m: Map<Seq<char>, Seq<char>>, params: Seq<ParameterV>)
    requires
        forall|i: int| 0 <= i < params.len() ==> m.contains_key(#[trigger] params[i].record_key),
    ensures
        enrich_fields_spec(m, params).len() == params.len(),
        forall|i: int|
            0 <= i < params.len() ==> enrich_fields_spec(m, params)[i] == (
                url_encoded(effective_key(#[trigger] params[i])),
                decorated_value(params[i], m[params[i].record_key]),
            ),
    decreases params.len(),
{
    if params.len() > 0 {
        let rest = params.drop_first();
        assert(forall|i: int|
            0 <= i < rest.len() ==> #[trigger] rest[i] == params[i + 1]);
        lemma_enrich_all_present(m, rest);
        assert(m.contains_key(params[0].record_key));
        let whole = enrich_fields_spec(m, params);
        assert(whole[0] == (
            url_encoded(effective_key(params[0])),
            decorated_value(params[0], m[params[0].record_key]),
        ));
        assert forall|i: int| 0 <= i < params.len() implies whole[i] == (
            url_encoded(effective_key(#[trigger] params[i])),
            decorated_value(params[i], m[params[i].record_key]),
        ) by {
            if i >= 1 {
                assert(whole[i] == enrich_fields_spec(m, rest)[i - 1]);
                assert(rest[i - 1] == params[i]);
                assert(enrich_fields_spec(m, rest)[i - 1] == (
                    url_encoded(effective_key(rest[i - 1])),
                    decorated_value(rest[i - 1], m[rest[i - 1].record_key]),
                ));
            }
        }
    }
}

/// A parameter whose `record_key` is absent from the field mapping contributes
/// no augmentation: enrichment is the same as if the parameter were not
/// configured at all.
pub proof fn lemma_enrich_absent_param(
    m: Map<Seq<char>, Seq<char>>,
    params: Seq<ParameterV>,
    i: int,
)
    requires
        0 <= i < params.len(),
        !m.contains_key(params[i].record_key),
    ensures
        enrich_fields_spec(m, params) == enrich_fields_spec(m, params.remove(i)),
    decreases params.len(),
{
    if i == 0 {
        assert(params.remove(0) =~= params.drop_first());
    } else {
        let rest = params.drop_first();
        assert(rest[i - 1] == params[i]);
        lemma_enrich_absent_param(m, rest, i - 1);
        assert(params.remove(i).drop_first() =~= rest.remove(i - 1));
        assert(params.remove(i)[0] == params[0]);
        assert(params.remove(i).len() > 0);
    }
}

/// With no parameter configured, enrichment is empty whatever the record holds.
pub proof fn lemma_enrich_empty_params(rec: Seq<char>)
    ensures
        enrich_spec(rec, Seq::<ParameterV>::empty()) == Seq::<(Seq<char>, Seq<char>)>::empty(),
{
}

} // verus!
