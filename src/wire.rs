use vstd::prelude::*;
use vstd::string::StrSliceExecFns;

verus! {

broadcast use vstd::std_specs::vec::axiom_vec_index_decreases;

/// A self-describing value: the flat-or-nested form in which catalog records
/// are transmitted and stored.
#[derive(Debug, PartialEq)]
pub enum Wire {
    Null,
    Bool(bool),
    Int(i128),
    /// A single-precision floating-point number, held as its IEEE-754 bit pattern.
    Float32(u32),
    Text(String),
    List(Vec<Wire>),
    Object(Vec<Field>),
}

/// One named member of an object.
#[derive(Debug, PartialEq)]
pub struct Field {
    pub key: String,
    pub value: Wire,
}

/// The mathematical model of a wire value.
pub enum WireValue {
    Null,
    Bool(bool),
    Int(int),
    Float32(u32),
    Text(Seq<char>),
    List(Seq<WireValue>),
    Object(Seq<(Seq<char>, WireValue)>),
}

impl Wire {
    pub open spec fn view(&self) -> WireValue
        decreases self,
    {
        match self {
            Wire::Null => WireValue::Null,
            Wire::Bool(b) => WireValue::Bool(*b),
            Wire::Int(n) => WireValue::Int(*n as int),
            Wire::Float32(bits) => WireValue::Float32(*bits),
            Wire::Text(s) => WireValue::Text(s@),
            Wire::List(items) => WireValue::List(
                Seq::new(
                    items.len() as nat,
                    |i: int|
                        if 0 <= i < items.len() {
                            items[i].view()
                        } else {
                            WireValue::Null
                        },
                ),
            ),
            Wire::Object(fields) => WireValue::Object(
                Seq::new(
                    fields.len() as nat,
                    |i: int|
                        if 0 <= i < fields.len() {
                            (fields[i].key@, fields[i].value.view())
                        } else {
                            (Seq::empty(), WireValue::Null)
                        },
                ),
            ),
        }
    }
}


impl Field {
    pub open spec fn view(&self) -> (Seq<char>, WireValue) {
        (self.key@, self.value@)
    }
}

/// The model of a sequence of object members.
pub open spec fn fields_view(fields: Seq<Field>) -> Seq<(Seq<char>, WireValue)> {
    fields.map_values(|f: Field| f@)
}

pub proof fn lemma_object_view(fields: Vec<Field>)
    ensures
        Wire::Object(fields)@ == WireValue::Object(fields_view(fields@)),
{
    assert(Wire::Object(fields)@->Object_0 =~= fields_view(fields@));
}

/// The model of a sequence of values.
pub open spec fn wires_view(items: Seq<Wire>) -> Seq<WireValue> {
    items.map_values(|w: Wire| w@)
}

pub proof fn lemma_list_view(items: Vec<Wire>)
    ensures
        Wire::List(items)@ == WireValue::List(wires_view(items@)),
{
    assert(Wire::List(items)@->List_0 =~= wires_view(items@));
}

/// The value of the first member named `key`, if there is one.
pub open spec fn lookup(fields: Seq<(Seq<char>, WireValue)>, key: Seq<char>) -> Option<WireValue>
    decreases fields.len(),
{
    if fields.len() == 0 {
        None
    } else if fields[0].0 == key {
        Some(fields[0].1)
    } else {
        lookup(fields.drop_first(), key)
    }
}

pub open spec fn has_prefix(name: Seq<char>, prefix: Seq<char>) -> bool {
    prefix.len() <= name.len() && name.subrange(0, prefix.len() as int) == prefix
}

/// Every member, with `prefix` put in front of its name.
pub open spec fn prefixed(prefix: Seq<char>, fields: Seq<(Seq<char>, WireValue)>) -> Seq<
    (Seq<char>, WireValue),
> {
    fields.map_values(|f: (Seq<char>, WireValue)| (prefix + f.0, f.1))
}

/// The members whose names start with `prefix`, in their order, with the prefix taken off.
pub open spec fn unprefixed(prefix: Seq<char>, fields: Seq<(Seq<char>, WireValue)>) -> Seq<
    (Seq<char>, WireValue),
>
    decreases fields.len(),
{
    if fields.len() == 0 {
        Seq::empty()
    } else {
        let rest = unprefixed(prefix, fields.drop_first());
        if has_prefix(fields[0].0, prefix) {
            seq![(fields[0].0.subrange(prefix.len() as int, fields[0].0.len() as int), fields[0].1)]
                + rest
        } else {
            rest
        }
    }
}

pub proof fn lemma_lookup_append(a: Seq<(Seq<char>, WireValue)>, b: Seq<(Seq<char>, WireValue)>, key: Seq<char>)
    ensures
        lookup(a + b, key) == (if lookup(a, key) is Some { lookup(a, key) } else { lookup(b, key) }),
    decreases a.len(),
{
    if a.len() > 0 {
        assert((a + b).drop_first() =~= a.drop_first() + b);
        lemma_lookup_append(a.drop_first(), b, key);
    } else {
        assert(a + b =~= b);
    }
}

pub proof fn lemma_unprefixed_append(p: Seq<char>, a: Seq<(Seq<char>, WireValue)>, b: Seq<(Seq<char>, WireValue)>)
    ensures
        unprefixed(p, a + b) == unprefixed(p, a) + unprefixed(p, b),
    decreases a.len(),
{
    if a.len() > 0 {
        assert((a + b).drop_first() =~= a.drop_first() + b);
        lemma_unprefixed_append(p, a.drop_first(), b);
        assert(unprefixed(p, a + b) =~= unprefixed(p, a) + unprefixed(p, b));
    } else {
        assert(a + b =~= b);
        assert(unprefixed(p, a + b) =~= unprefixed(p, a) + unprefixed(p, b));
    }
}

pub proof fn lemma_unprefixed_prefixed(p: Seq<char>, fields: Seq<(Seq<char>, WireValue)>)
    ensures
        unprefixed(p, prefixed(p, fields)) == fields,
    decreases fields.len(),
{
    if fields.len() > 0 {
        assert(prefixed(p, fields).drop_first() =~= prefixed(p, fields.drop_first()));
        lemma_unprefixed_prefixed(p, fields.drop_first());
        let k = p + fields[0].0;
        assert(k.subrange(0, p.len() as int) =~= p);
        assert(k.subrange(p.len() as int, k.len() as int) =~= fields[0].0);
        assert(unprefixed(p, prefixed(p, fields)) =~= fields);
    } else {
        assert(unprefixed(p, prefixed(p, fields)) =~= fields);
    }
}

/// Whether two strings hold the same characters.
pub fn same_text(a: &str, b: &str) -> (r: bool)
    ensures
        r == (a@ == b@),
{
    let n = a.unicode_len();
    if n != b.unicode_len() {
        return false;
    }
    let mut i: usize = 0;
    while i < n
        invariant
            n == a@.len(),
            n == b@.len(),
            0 <= i <= n,
            a@.subrange(0, i as int) == b@.subrange(0, i as int),
        decreases n - i,
    {
        if a.get_char(i) != b.get_char(i) {
            return false;
        }
        assert(a@.subrange(0, i + 1) =~= a@.subrange(0, i as int).push(a@[i as int]));
        assert(b@.subrange(0, i + 1) =~= b@.subrange(0, i as int).push(b@[i as int]));
        i = i + 1;
    }
    assert(a@ =~= a@.subrange(0, n as int));
    assert(b@ =~= b@.subrange(0, n as int));
    true
}

/// Whether `name` starts with `prefix`.
pub fn starts_with_text(name: &str, prefix: &str) -> (r: bool)
    ensures
        r == has_prefix(name@, prefix@),
{
    let n = name.unicode_len();
    let m = prefix.unicode_len();
    if m > n {
        return false;
    }
    let head = name.substring_char(0, m);
    same_text(head, prefix)
}

/// `prefix` followed by `name`.
pub fn join_text(prefix: &str, name: &str) -> (r: String)
    ensures
        r@ == prefix@ + name@,
{
    let r = prefix.to_string();
    let tail = r.concat(name);
    tail
}

/// The first member of `fields` named `key`.
pub fn find_field<'a>(fields: &'a Vec<Field>, key: &str) -> (r: Option<&'a Wire>)
    ensures
        match r {
            Some(w) => lookup(fields_view(fields@), key@) == Some(w@),
            None => lookup(fields_view(fields@), key@) is None,
        },
{
    let ghost fv = fields_view(fields@);
    let mut i: usize = 0;
    assert(fv.subrange(0, fv.len() as int) =~= fv);
    while i < fields.len()
        invariant
            0 <= i <= fields.len(),
            fv == fields_view(fields@),
            lookup(fv, key@) == lookup(fv.subrange(i as int, fv.len() as int), key@),
        decreases fields.len() - i,
    {
        let f = &fields[i];
        if same_text(f.key.as_str(), key) {
            return Some(&f.value);
        }
        assert(fv.subrange(i as int, fv.len() as int).drop_first() =~= fv.subrange(i + 1, fv.len() as int));
        i = i + 1;
    }
    None
}

pub proof fn lemma_unprefixed_none(p: Seq<char>, fields: Seq<(Seq<char>, WireValue)>)
    requires
        forall|i: int| 0 <= i < fields.len() ==> !has_prefix(#[trigger] fields[i].0, p),
    ensures
        unprefixed(p, fields) == Seq::<(Seq<char>, WireValue)>::empty(),
    decreases fields.len(),
{
    if fields.len() > 0 {
        assert(!has_prefix(fields[0].0, p));
        lemma_unprefixed_none(p, fields.drop_first());
    }
}

/// Puts `prefix` in front of the name of every member, keeping their order.
pub fn prefix_fields(prefix: &str, fields: Vec<Field>) -> (r: Vec<Field>)
    ensures
        fields_view(r@) == prefixed(prefix@, fields_view(fields@)),
{
    let ghost orig = fields@;
    let ghost n = orig.len();
    let mut rest = fields;
    let mut out: Vec<Field> = Vec::new();
    while rest.len() > 0
        invariant
            n == orig.len(),
            out.len() + rest.len() == n,
            rest@ == orig.subrange(out.len() as int, n as int),
            forall|j: int| 0 <= j < out.len() ==> (#[trigger] out@[j])@ == (prefix@ + orig[j].key@, orig[j].value@),
        decreases rest.len(),
    {
        let f = rest.remove(0);
        let key = join_text(prefix, f.key.as_str());
        out.push(Field { key, value: f.value });
    }
    assert(fields_view(out@) =~= prefixed(prefix@, fields_view(orig)));
    out
}

/// The members whose names start with `prefix`, with the prefix taken off;
/// the others are dropped.
pub fn unprefix_fields(prefix: &str, fields: Vec<Field>) -> (r: Vec<Field>)
    ensures
        fields_view(r@) == unprefixed(prefix@, fields_view(fields@)),
{
    let ghost fv = fields_view(fields@);
    let ghost n = fv.len();
    let m = prefix.unicode_len();
    let mut rest = fields;
    let mut out: Vec<Field> = Vec::new();
    assert(fv.subrange(0, n as int) =~= fv);
    assert(fields_view(out@) + unprefixed(prefix@, fv) =~= unprefixed(prefix@, fv));
    while rest.len() > 0
        invariant
            n == fv.len(),
            m == prefix@.len(),
            rest.len() <= n,
            fields_view(rest@) == fv.subrange(n - rest.len(), n as int),
            unprefixed(prefix@, fv) == fields_view(out@) + unprefixed(prefix@, fields_view(rest@)),
        decreases rest.len(),
    {
        let ghost sub = fields_view(rest@);
        let f = rest.remove(0);
        assert(sub.drop_first() =~= fields_view(rest@));
        assert(sub[0] == f@);
        if starts_with_text(f.key.as_str(), prefix) {
            let kl = f.key.as_str().unicode_len();
            let stripped = f.key.as_str().substring_char(m, kl).to_string();
            let ghost before = fields_view(out@);
            let ghost entry = (f.key@.subrange(m as int, f.key@.len() as int), f.value@);
            out.push(Field { key: stripped, value: f.value });
            assert(fields_view(out@) =~= before.push(entry));
            assert(fields_view(out@) + unprefixed(prefix@, sub.drop_first()) =~= before + unprefixed(prefix@, sub));
        }
        assert(fields_view(rest@) =~= fv.subrange(n - rest.len(), n as int));
    }
    assert(fields_view(rest@) =~= Seq::<(Seq<char>, WireValue)>::empty());
    assert(fields_view(out@) + Seq::<(Seq<char>, WireValue)>::empty() =~= fields_view(out@));
    out
}

/// Takes out the value of the first member named `key`.
pub fn take_field(fields: Vec<Field>, key: &str) -> (r: Option<Wire>)
    ensures
        match r {
            Some(w) => lookup(fields_view(fields@), key@) == Some(w@),
            None => lookup(fields_view(fields@), key@) is None,
        },
{
    let ghost fv = fields_view(fields@);
    let mut fs = fields;
    let mut i: usize = 0;
    assert(fv.subrange(0, fv.len() as int) =~= fv);
    while i < fs.len()
        invariant
            0 <= i <= fs.len(),
            fv == fields_view(fs@),
            fv == fields_view(fields@),
            lookup(fv, key@) == lookup(fv.subrange(i as int, fv.len() as int), key@),
        decreases fs.len() - i,
    {
        if same_text(fs[i].key.as_str(), key) {
            assert(fv.subrange(i as int, fv.len() as int)[0] == fv[i as int]);
            let f = fs.remove(i);
            assert(fv[i as int] == f@);
            assert(fv[i as int].0 == key@);
            return Some(f.value);
        }
        assert(fv.subrange(i as int, fv.len() as int).drop_first() =~= fv.subrange(i + 1, fv.len() as int));
        i = i + 1;
    }
    None
}

} // verus!
