//! The schema catalog: for each provider type, the ordered list of fields
//! that a form for it shows.
//!
//! The catalog arrives as a JSON document. Reading it is tolerant: a field
//! without a name is skipped, a missing kind is `string`, and the choices of a
//! field are read from the first of three keys that holds a list, each choice
//! once, in the order met.
use crate::json::items_view;
use crate::json::json_compact;
use crate::json::Json;
use crate::json::JsonV;
use crate::text::clone_opt_string;
use crate::text::clone_strings;
use crate::text::first_index_of;
use crate::text::opt_str;
use crate::text::position_of;
use crate::text::sort_strings;
use crate::text::str_eq;
use crate::text::strip_both;
use crate::text::strip_char;
use crate::text::strs;
use crate::text::strs_sorted;
use vstd::prelude::*;
use vstd::string::StringExecFns;

verus! {

/// The models of a list of values.
pub open spec fn views<T: View>(v: Seq<T>) -> Seq<T::V> {
    Seq::new(v.len(), |i: int| v[i]@)
}

/// One field of a provider type.
#[derive(Clone, Debug)]
pub struct FieldSchema {
    pub name: String,
    /// The kind of value: `string`, `int`, `secret` and so on.
    pub ftype: String,
    pub required: bool,
    pub default: Option<String>,
    pub help: Option<String>,
    /// The legal values, where the field is a choice among a few.
    pub options: Option<Vec<String>>,
}

/// The model of a [`FieldSchema`].
#[verifier::ext_equal]
pub struct FieldSchemaV {
    pub name: Seq<char>,
    pub ftype: Seq<char>,
    pub required: bool,
    pub default: Option<Seq<char>>,
    pub help: Option<Seq<char>>,
    pub options: Option<Seq<Seq<char>>>,
}

impl View for FieldSchema {
    type V = FieldSchemaV;

    open spec fn view(&self) -> FieldSchemaV {
        FieldSchemaV {
            name: self.name@,
            ftype: self.ftype@,
            required: self.required,
            default: opt_str(self.default),
            help: opt_str(self.help),
            options: match self.options {
                Some(v) => Some(strs(v@)),
                None => None,
            },
        }
    }
}

impl FieldSchema {
    /// A copy of the descriptor.
    pub fn duplicate(&self) -> (r: FieldSchema)
        ensures
            r@ == self@,
    {
        FieldSchema {
            name: self.name.clone(),
            ftype: self.ftype.clone(),
            required: self.required,
            default: clone_opt_string(&self.default),
            help: clone_opt_string(&self.help),
            options: match &self.options {
                Some(v) => Some(clone_strings(v)),
                None => None,
            },
        }
    }
}

/// A copy of a list of descriptors.
pub fn clone_schemas(v: &Vec<FieldSchema>) -> (r: Vec<FieldSchema>)
    ensures
        views(r@) == views(v@),
{
    let mut r: Vec<FieldSchema> = Vec::new();
    let mut i: usize = 0;
    while i < v.len()
        invariant
            i <= v.len(),
            r.len() == i,
            forall|k: int| 0 <= k < i ==> r@[k]@ == v@[k]@,
        decreases v.len() - i,
    {
        r.push(v[i].duplicate());
        i += 1;
    }
    assert(views(r@) =~= views(v@));
    r
}

/// `acc` with the strings among `items` added at its end, each only where it
/// is not there yet.
pub open spec fn with_new_strings(acc: Seq<Seq<char>>, items: Seq<JsonV>) -> Seq<Seq<char>>
    decreases items.len(),
{
    if items.len() == 0 {
        acc
    } else {
        let sofar = with_new_strings(acc, items.drop_last());
        match items.last().as_str() {
            Some(s) => if first_index_of(sofar, s) is None {
                sofar.push(s)
            } else {
                sofar
            },
            None => sofar,
        }
    }
}

/// The array under `key`, or no elements where there is none.
pub open spec fn array_or_empty(f: JsonV, key: Seq<char>) -> Seq<JsonV> {
    match f.array_at(key) {
        Some(items) => items,
        None => Seq::empty(),
    }
}

/// The key that the choices of a raw field are read from: the first of
/// `options`, `enum` and `choices` under which the field has an array; none
/// where it has an array under none of them.
pub open spec fn options_key(f: JsonV) -> Option<Seq<char>> {
    if f.array_at("options"@) is Some {
        Some("options"@)
    } else if f.array_at("enum"@) is Some {
        Some("enum"@)
    } else if f.array_at("choices"@) is Some {
        Some("choices"@)
    } else {
        None
    }
}

/// The choices of a raw field: the strings of the array under the first of
/// `options`, `enum` and `choices` that has one, each once, in order.
pub open spec fn options_of(f: JsonV) -> Seq<Seq<char>> {
    match options_key(f) {
        Some(key) => with_new_strings(Seq::empty(), array_or_empty(f, key)),
        None => Seq::empty(),
    }
}

/// The descriptor that a raw field gives, or `None` where it has no name.
pub open spec fn field_of(f: JsonV) -> Option<FieldSchemaV> {
    match f.str_at("name"@) {
        Some(name) => if name.len() == 0 {
            None
        } else {
            Some(
                FieldSchemaV {
                    name,
                    ftype: match f.str_at("type"@) {
                        Some(t) => t,
                        None => "string"@,
                    },
                    required: match f.bool_at("required"@) {
                        Some(b) => b,
                        None => false,
                    },
                    default: match f.get("default"@) {
                        Some(d) => Some(strip_both(json_compact(d), '"')),
                        None => None,
                    },
                    help: f.str_at("help"@),
                    options: if options_of(f).len() == 0 {
                        None
                    } else {
                        Some(options_of(f))
                    },
                },
            )
        },
        None => None,
    }
}

/// The descriptors that a list of raw fields gives, in order.
pub open spec fn fields_of(items: Seq<JsonV>) -> Seq<FieldSchemaV>
    decreases items.len(),
{
    if items.len() == 0 {
        Seq::empty()
    } else {
        let sofar = fields_of(items.drop_last());
        match field_of(items.last()) {
            Some(f) => sofar.push(f),
            None => sofar,
        }
    }
}

/// The type names of a list of raw providers, in order; one without a type
/// name is skipped.
pub open spec fn type_names_of(provs: Seq<JsonV>) -> Seq<Seq<char>>
    decreases provs.len(),
{
    if provs.len() == 0 {
        Seq::empty()
    } else {
        let sofar = type_names_of(provs.drop_last());
        match provs.last().str_at("type"@) {
            Some(t) => sofar.push(t),
            None => sofar,
        }
    }
}

/// The type name and fields of each raw provider that has a type name.
pub open spec fn catalog_of(provs: Seq<JsonV>) -> Seq<(Seq<char>, Seq<FieldSchemaV>)>
    decreases provs.len(),
{
    if provs.len() == 0 {
        Seq::empty()
    } else {
        let sofar = catalog_of(provs.drop_last());
        match provs.last().str_at("type"@) {
            Some(t) => sofar.push((t, fields_of(array_or_empty(provs.last(), "fields"@)))),
            None => sofar,
        }
    }
}

/// The model of a catalog: type names with their fields.
pub open spec fn catalog_view(c: Seq<(String, Vec<FieldSchema>)>) -> Seq<
    (Seq<char>, Seq<FieldSchemaV>),
> {
    Seq::new(c.len(), |i: int| (c[i].0@, views(c[i].1@)))
}

/// The fields of a type: those of the last entry under its name.
pub open spec fn catalog_fields(c: Seq<(Seq<char>, Seq<FieldSchemaV>)>, ptype: Seq<char>) -> Option<
    Seq<FieldSchemaV>,
>
    decreases c.len(),
{
    if c.len() == 0 {
        None
    } else if c.last().0 == ptype {
        Some(c.last().1)
    } else {
        catalog_fields(c.drop_last(), ptype)
    }
}

/// Adds the strings of the array under `key` to `acc`, each only where it
/// is not there yet.
fn add_new_strings(acc: &mut Vec<String>, f: &Json, key: &str)
    ensures
        strs(final(acc)@) == with_new_strings(strs(old(acc)@), array_or_empty(f@, key@)),
{
    match f.array_at(key) {
        Some(items) => {
            let ghost start = strs(acc@);
            let ghost all = items_view(items@);
            let mut i: usize = 0;
            while i < items.len()
                invariant
                    i <= items.len(),
                    all == items_view(items@),
                    strs(acc@) == with_new_strings(start, all.take(i as int)),
                decreases items.len() - i,
            {
                proof {
                    let stepped = all.take(i + 1);
                    assert(stepped.drop_last() =~= all.take(i as int));
                    assert(stepped.last() == items@[i as int]@);
                }
                let ghost before = strs(acc@);
                match items[i].as_str() {
                    Some(s) => {
                        if position_of(acc, s).is_none() {
                            acc.push(String::from_str(s));
                            proof {
                                assert(strs(acc@) =~= before.push(s@));
                            }
                        }
                    },
                    None => {},
                }
                i += 1;
            }
            proof {
                assert(all.take(items.len() as int) =~= all);
            }
        },
        None => {},
    }
}

/// Reads one raw field.
pub fn parse_field(f: &Json) -> (r: Option<FieldSchema>)
    ensures
        match r {
            Some(s) => field_of(f@) == Some(s@),
            None => field_of(f@) is None,
        },
{
    let name = match f.str_at("name") {
        Some(n) => String::from_str(n),
        None => {
            return None;
        },
    };
    if name.as_str().is_empty() {
        return None;
    }
    let ftype = match f.str_at("type") {
        Some(t) => String::from_str(t),
        None => String::from_str("string"),
    };
    let required = match f.bool_at("required") {
        Some(b) => b,
        None => false,
    };
    let default = match f.get("default") {
        Some(d) => {
            let shown = d.to_compact();
            Some(strip_char(shown.as_str(), '"'))
        },
        None => None,
    };
    let help = match f.str_at("help") {
        Some(h) => Some(String::from_str(h)),
        None => None,
    };
    let mut opts: Vec<String> = Vec::new();
    assert(strs(opts@) =~= Seq::empty());
    if f.array_at("options").is_some() {
        add_new_strings(&mut opts, f, "options");
    } else if f.array_at("enum").is_some() {
        add_new_strings(&mut opts, f, "enum");
    } else if f.array_at("choices").is_some() {
        add_new_strings(&mut opts, f, "choices");
    }
    assert(strs(opts@) == options_of(f@));
    let options = if opts.len() == 0 {
        None
    } else {
        Some(opts)
    };
    Some(FieldSchema { name, ftype, required, default, help, options })
}

/// Reads a list of raw fields; one without a name is skipped.
pub fn parse_fields(items: &Vec<Json>) -> (r: Vec<FieldSchema>)
    ensures
        views(r@) == fields_of(items_view(items@)),
{
    let ghost all = items_view(items@);
    let mut out: Vec<FieldSchema> = Vec::new();
    let mut i: usize = 0;
    while i < items.len()
        invariant
            i <= items.len(),
            all == items_view(items@),
            views(out@) == fields_of(all.take(i as int)),
        decreases items.len() - i,
    {
        proof {
            let stepped = all.take(i + 1);
            assert(stepped.drop_last() =~= all.take(i as int));
            assert(stepped.last() == items@[i as int]@);
        }
        let ghost before = views(out@);
        match parse_field(&items[i]) {
            Some(f) => {
                out.push(f);
                proof {
                    assert(views(out@) =~= before.push(f@));
                }
            },
            None => {},
        }
        i += 1;
    }
    proof {
        assert(all.take(items.len() as int) =~= all);
    }
    out
}

/// The raw providers of a schema document: the array under `providers`.
pub open spec fn raw_providers(doc: JsonV) -> Seq<JsonV> {
    array_or_empty(doc, "providers"@)
}

/// Reads a schema document: the known type names in ascending order, and the
/// fields of each type.
pub fn parse_schema(doc: &Json) -> (r: (Vec<String>, Vec<(String, Vec<FieldSchema>)>))
    ensures
        strs(r.0@).to_multiset() == type_names_of(raw_providers(doc@)).to_multiset(),
        strs_sorted(strs(r.0@)),
        catalog_view(r.1@) == catalog_of(raw_providers(doc@)),
{
    let mut types: Vec<String> = Vec::new();
    let mut catalog: Vec<(String, Vec<FieldSchema>)> = Vec::new();
    assert(strs(types@) =~= Seq::empty());
    assert(catalog_view(catalog@) =~= Seq::empty());
    match doc.array_at("providers") {
        Some(provs) => {
            let ghost all = items_view(provs@);
            let mut i: usize = 0;
            while i < provs.len()
                invariant
                    i <= provs.len(),
                    all == items_view(provs@),
                    strs(types@) == type_names_of(all.take(i as int)),
                    catalog_view(catalog@) == catalog_of(all.take(i as int)),
                decreases provs.len() - i,
            {
                proof {
                    let stepped = all.take(i + 1);
                    assert(stepped.drop_last() =~= all.take(i as int));
                    assert(stepped.last() == provs@[i as int]@);
                }
                let ghost types_before = strs(types@);
                let ghost catalog_before = catalog_view(catalog@);
                match provs[i].str_at("type") {
                    Some(t) => {
                        types.push(String::from_str(t));
                        let fields = match provs[i].array_at("fields") {
                            Some(raw) => parse_fields(raw),
                            None => {
                                let none: Vec<FieldSchema> = Vec::new();
                                assert(views(none@) =~= fields_of(Seq::empty()));
                                none
                            },
                        };
                        catalog.push((String::from_str(t), fields));
                        proof {
                            assert(strs(types@) =~= types_before.push(t@));
                            assert(catalog_view(catalog@) =~= catalog_before.push(
                                (t@, views(fields@)),
                            ));
                        }
                    },
                    None => {},
                }
                i += 1;
            }
            proof {
                assert(all.take(provs.len() as int) =~= all);
            }
        },
        None => {},
    }
    sort_strings(&mut types);
    (types, catalog)
}

/// The fields of a provider type in a catalog.
pub fn lookup_fields<'a>(catalog: &'a Vec<(String, Vec<FieldSchema>)>, ptype: &str) -> (r: Option<
    &'a Vec<FieldSchema>,
>)
    ensures
        match r {
            Some(f) => catalog_fields(catalog_view(catalog@), ptype@) == Some(views(f@)),
            None => catalog_fields(catalog_view(catalog@), ptype@) is None,
        },
{
    let ghost all = catalog_view(catalog@);
    let mut j: usize = catalog.len();
    proof {
        assert(all.take(j as int) =~= all);
    }
    while j > 0
        invariant
            j <= catalog.len(),
            all == catalog_view(catalog@),
            catalog_fields(all, ptype@) == catalog_fields(all.take(j as int), ptype@),
        decreases j,
    {
        proof {
            let cur = all.take(j as int);
            assert(cur.drop_last() =~= all.take(j - 1));
            assert(cur.last() == all[j - 1]);
        }
        if str_eq(catalog[j - 1].0.as_str(), ptype) {
            return Some(&catalog[j - 1].1);
        }
        j -= 1;
    }
    None
}

} // verus!
