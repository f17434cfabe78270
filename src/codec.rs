use vstd::prelude::*;

use crate::catalog::{
    images_view, texts_view, Amount, Image, ImageView, Item, ItemCategory, ItemMeasurmentUnits,
    ItemModification, ItemVariation, ItemView, ModificationView, Price, PriceView, VariationView,
    option_text_view, CatalogObject, CatalogObjectDocument, CatalogObjectView, DocumentView,
};
use crate::wire::{
    fields_view, has_prefix, lemma_list_view, lemma_lookup_append, lemma_object_view,
    lemma_unprefixed_append, lemma_unprefixed_none, lemma_unprefixed_prefixed, lookup, prefix_fields,
    prefixed, same_text, take_field, unprefix_fields, unprefixed, wires_view, Field, Wire, WireValue,
};

verus! {

/// Why a wire value could not be read back.
#[derive(Debug, PartialEq, Eq)]
pub enum DecodeError {
    /// A discriminator names no member of the closed set it selects from.
    UnknownVariant,
    /// A field holds a value of the wrong shape for its slot, or a price field is
    /// not one that the price variant has.
    MalformedField,
    /// A required field is absent.
    MissingField,
    /// The catalog entry carried by a document could not be read; holds the cause.
    MalformedDocument(Box<DecodeError>),
}

/// The model of a decoding outcome.
pub open spec fn viewed<T: View>(r: Result<T, DecodeError>) -> Result<T::V, DecodeError> {
    match r {
        Ok(v) => Ok(v@),
        Err(e) => Err(e),
    }
}

/// A type that can be written to, and read back from, a wire value: the
/// identifiers and account references that records carry.
pub trait WireForm: View + Sized {
    spec fn wire_of(v: Self::V) -> WireValue;

    spec fn parse_wire(w: WireValue) -> Result<Self::V, DecodeError>;

    proof fn lemma_parse_wire_of(v: Self::V)
        ensures
            Self::parse_wire(Self::wire_of(v)) == Ok::<Self::V, DecodeError>(v),
    ;

    fn to_wire(&self) -> (w: Wire)
        ensures
            w@ == Self::wire_of(self@),
    ;

    fn from_wire(w: &Wire) -> (r: Result<Self, DecodeError>)
        ensures
            viewed(r) == Self::parse_wire(w@),
    ;
}

impl WireForm for u64 {
    open spec fn wire_of(v: u64) -> WireValue {
        WireValue::Int(v as int)
    }

    open spec fn parse_wire(w: WireValue) -> Result<u64, DecodeError> {
        match w {
            WireValue::Int(n) => if 0 <= n <= u64::MAX {
                Ok(n as u64)
            } else {
                Err(DecodeError::MalformedField)
            },
            _ => Err(DecodeError::MalformedField),
        }
    }

    proof fn lemma_parse_wire_of(v: u64) {
    }

    fn to_wire(&self) -> (w: Wire) {
        Wire::Int(*self as i128)
    }

    fn from_wire(w: &Wire) -> (r: Result<u64, DecodeError>) {
        match w {
            Wire::Int(n) => if 0 <= *n && *n <= u64::MAX as i128 {
                Ok(*n as u64)
            } else {
                Err(DecodeError::MalformedField)
            },
            _ => Err(DecodeError::MalformedField),
        }
    }
}

impl WireForm for u32 {
    open spec fn wire_of(v: u32) -> WireValue {
        WireValue::Int(v as int)
    }

    open spec fn parse_wire(w: WireValue) -> Result<u32, DecodeError> {
        match w {
            WireValue::Int(n) => if 0 <= n <= u32::MAX {
                Ok(n as u32)
            } else {
                Err(DecodeError::MalformedField)
            },
            _ => Err(DecodeError::MalformedField),
        }
    }

    proof fn lemma_parse_wire_of(v: u32) {
    }

    fn to_wire(&self) -> (w: Wire) {
        Wire::Int(*self as i128)
    }

    fn from_wire(w: &Wire) -> (r: Result<u32, DecodeError>) {
        match w {
            Wire::Int(n) => if 0 <= *n && *n <= u32::MAX as i128 {
                Ok(*n as u32)
            } else {
                Err(DecodeError::MalformedField)
            },
            _ => Err(DecodeError::MalformedField),
        }
    }
}

impl WireForm for i64 {
    open spec fn wire_of(v: i64) -> WireValue {
        WireValue::Int(v as int)
    }

    open spec fn parse_wire(w: WireValue) -> Result<i64, DecodeError> {
        match w {
            WireValue::Int(n) => if i64::MIN <= n <= i64::MAX {
                Ok(n as i64)
            } else {
                Err(DecodeError::MalformedField)
            },
            _ => Err(DecodeError::MalformedField),
        }
    }

    proof fn lemma_parse_wire_of(v: i64) {
    }

    fn to_wire(&self) -> (w: Wire) {
        Wire::Int(*self as i128)
    }

    fn from_wire(w: &Wire) -> (r: Result<i64, DecodeError>) {
        match w {
            Wire::Int(n) => if i64::MIN as i128 <= *n && *n <= i64::MAX as i128 {
                Ok(*n as i64)
            } else {
                Err(DecodeError::MalformedField)
            },
            _ => Err(DecodeError::MalformedField),
        }
    }
}

impl WireForm for String {
    open spec fn wire_of(v: Seq<char>) -> WireValue {
        WireValue::Text(v)
    }

    open spec fn parse_wire(w: WireValue) -> Result<Seq<char>, DecodeError> {
        match w {
            WireValue::Text(t) => Ok(t),
            _ => Err(DecodeError::MalformedField),
        }
    }

    proof fn lemma_parse_wire_of(v: Seq<char>) {
    }

    fn to_wire(&self) -> (w: Wire) {
        Wire::Text(self.clone())
    }

    fn from_wire(w: &Wire) -> (r: Result<String, DecodeError>) {
        match w {
            Wire::Text(t) => Ok(t.clone()),
            _ => Err(DecodeError::MalformedField),
        }
    }
}


/// The text held by the member `key`.
pub open spec fn text_at(fs: Seq<(Seq<char>, WireValue)>, key: Seq<char>) -> Result<Seq<char>, DecodeError> {
    match lookup(fs, key) {
        None => Err(DecodeError::MissingField),
        Some(WireValue::Text(t)) => Ok(t),
        Some(_) => Err(DecodeError::MalformedField),
    }
}

/// The truth value held by the member `key`.
pub open spec fn bool_at(fs: Seq<(Seq<char>, WireValue)>, key: Seq<char>) -> Result<bool, DecodeError> {
    match lookup(fs, key) {
        None => Err(DecodeError::MissingField),
        Some(WireValue::Bool(b)) => Ok(b),
        Some(_) => Err(DecodeError::MalformedField),
    }
}

/// The integer held by the member `key`.
pub open spec fn int_at(fs: Seq<(Seq<char>, WireValue)>, key: Seq<char>) -> Result<int, DecodeError> {
    match lookup(fs, key) {
        None => Err(DecodeError::MissingField),
        Some(WireValue::Int(n)) => Ok(n),
        Some(_) => Err(DecodeError::MalformedField),
    }
}

/// The integer held by the member `key`, which must lie in `lo..=hi`.
pub open spec fn bounded_at(fs: Seq<(Seq<char>, WireValue)>, key: Seq<char>, lo: int, hi: int) -> Result<int, DecodeError> {
    match int_at(fs, key) {
        Ok(n) => if lo <= n <= hi {
            Ok(n)
        } else {
            Err(DecodeError::MalformedField)
        },
        Err(e) => Err(e),
    }
}

/// The floating-point bit pattern held by the member `key`.
pub open spec fn float_at(fs: Seq<(Seq<char>, WireValue)>, key: Seq<char>) -> Result<u32, DecodeError> {
    match lookup(fs, key) {
        None => Err(DecodeError::MissingField),
        Some(WireValue::Float32(b)) => Ok(b),
        Some(_) => Err(DecodeError::MalformedField),
    }
}

pub fn get_text(fields: &Vec<Field>, key: &str) -> (r: Result<String, DecodeError>)
    ensures
        viewed(r) == text_at(fields_view(fields@), key@),
{
    match crate::wire::find_field(fields, key) {
        None => Err(DecodeError::MissingField),
        Some(Wire::Text(t)) => Ok(t.clone()),
        Some(_) => Err(DecodeError::MalformedField),
    }
}

pub fn get_bool(fields: &Vec<Field>, key: &str) -> (r: Result<bool, DecodeError>)
    ensures
        r == bool_at(fields_view(fields@), key@),
{
    match crate::wire::find_field(fields, key) {
        None => Err(DecodeError::MissingField),
        Some(Wire::Bool(b)) => Ok(*b),
        Some(_) => Err(DecodeError::MalformedField),
    }
}

pub fn get_bounded(fields: &Vec<Field>, key: &str, lo: i128, hi: i128) -> (r: Result<i128, DecodeError>)
    ensures
        match r {
            Ok(n) => bounded_at(fields_view(fields@), key@, lo as int, hi as int) == Ok::<int, DecodeError>(n as int),
            Err(e) => bounded_at(fields_view(fields@), key@, lo as int, hi as int) == Err::<int, DecodeError>(e),
        },
{
    match crate::wire::find_field(fields, key) {
        None => Err(DecodeError::MissingField),
        Some(Wire::Int(n)) => if lo <= *n && *n <= hi {
            Ok(*n)
        } else {
            Err(DecodeError::MalformedField)
        },
        Some(_) => Err(DecodeError::MalformedField),
    }
}

pub fn get_float32(fields: &Vec<Field>, key: &str) -> (r: Result<u32, DecodeError>)
    ensures
        r == float_at(fields_view(fields@), key@),
{
    match crate::wire::find_field(fields, key) {
        None => Err(DecodeError::MissingField),
        Some(Wire::Float32(b)) => Ok(*b),
        Some(_) => Err(DecodeError::MalformedField),
    }
}

/// A sequence of strings as a list of texts.
pub open spec fn texts_wire(s: Seq<Seq<char>>) -> Seq<WireValue> {
    s.map_values(|t: Seq<char>| WireValue::Text(t))
}

/// Reads a list of texts.
pub open spec fn parse_texts(items: Seq<WireValue>) -> Result<Seq<Seq<char>>, DecodeError>
    decreases items.len(),
{
    if items.len() == 0 {
        Ok(Seq::empty())
    } else {
        match items[0] {
            WireValue::Text(t) => match parse_texts(items.drop_first()) {
                Ok(rest) => Ok(seq![t] + rest),
                Err(e) => Err(e),
            },
            _ => Err(DecodeError::MalformedField),
        }
    }
}

pub proof fn lemma_parse_texts(s: Seq<Seq<char>>)
    ensures
        parse_texts(texts_wire(s)) == Ok::<Seq<Seq<char>>, DecodeError>(s),
    decreases s.len(),
{
    if s.len() > 0 {
        assert(texts_wire(s).drop_first() =~= texts_wire(s.drop_first()));
        assert(texts_wire(s)[0] == WireValue::Text(s[0]));
        lemma_parse_texts(s.drop_first());
        assert(seq![s[0]] + s.drop_first() =~= s);
    } else {
        assert(texts_wire(s) =~= Seq::<WireValue>::empty());
        assert(s =~= Seq::<Seq<char>>::empty());
    }
}

pub fn encode_texts(v: &Vec<String>) -> (w: Wire)
    ensures
        w@ == WireValue::List(texts_wire(texts_view(v@))),
{
    let mut out: Vec<Wire> = Vec::new();
    let mut i: usize = 0;
    while i < v.len()
        invariant
            0 <= i <= v.len(),
            out.len() == i,
            forall|j: int| 0 <= j < i ==> (#[trigger] out@[j])@ == WireValue::Text(v@[j]@),
        decreases v.len() - i,
    {
        out.push(Wire::Text(v[i].clone()));
        i = i + 1;
    }
    assert(wires_view(out@) =~= texts_wire(texts_view(v@)));
    proof { lemma_list_view(out); }
    Wire::List(out)
}

pub fn decode_texts(items: &Vec<Wire>) -> (r: Result<Vec<String>, DecodeError>)
    ensures
        match r {
            Ok(v) => parse_texts(wires_view(items@)) == Ok::<Seq<Seq<char>>, DecodeError>(texts_view(v@)),
            Err(e) => parse_texts(wires_view(items@)) == Err::<Seq<Seq<char>>, DecodeError>(e),
        },
{
    let ghost iv = wires_view(items@);
    let ghost n = iv.len();
    let mut out: Vec<String> = Vec::new();
    let mut i: usize = 0;
    assert(iv.subrange(0, n as int) =~= iv);
    assert(texts_view(out@) + Seq::<Seq<char>>::empty() =~= texts_view(out@));
    while i < items.len()
        invariant
            0 <= i <= items.len(),
            iv == wires_view(items@),
            n == iv.len(),
            parse_texts(iv) == match parse_texts(iv.subrange(i as int, n as int)) {
                Ok(rest) => Ok(texts_view(out@) + rest),
                Err(e) => Err::<Seq<Seq<char>>, DecodeError>(e),
            },
        decreases items.len() - i,
    {
        let ghost sub = iv.subrange(i as int, n as int);
        assert(sub.drop_first() =~= iv.subrange(i + 1, n as int));
        assert(sub[0] == items[i as int]@);
        match &items[i] {
            Wire::Text(t) => {
                let ghost before = texts_view(out@);
                out.push(t.clone());
                assert(texts_view(out@) =~= before + seq![t@]);
                assert forall|rest: Seq<Seq<char>>| before + (seq![t@] + rest) =~= texts_view(out@) + rest by {}
            },
            _ => {
                return Err(DecodeError::MalformedField);
            },
        }
        i = i + 1;
    }
    assert(iv.subrange(n as int, n as int) =~= Seq::<WireValue>::empty());
    assert(texts_view(out@) + Seq::<Seq<char>>::empty() =~= texts_view(out@));
    Ok(out)
}

/// The members of a price, discriminator first.
pub open spec fn price_fields(p: PriceView) -> Seq<(Seq<char>, WireValue)> {
    match p {
        PriceView::Fixed { amount, currency } => seq![
            ("type"@, WireValue::Text("Fixed"@)),
            ("amount"@, WireValue::Float32(amount.bits)),
            ("currency"@, WireValue::Text(currency)),
        ],
    }
}

/// Whether `k` names a member that a fixed price has.
pub open spec fn fixed_price_key(k: Seq<char>) -> bool {
    k == "type"@ || k == "amount"@ || k == "currency"@
}

/// Reads a price from its members: the discriminator decides the variant,
/// and every member must belong to that variant.
pub open spec fn parse_price_fields(fs: Seq<(Seq<char>, WireValue)>) -> Result<PriceView, DecodeError> {
    let t = text_at(fs, "type"@);
    if t is Err {
        Err(t->Err_0)
    } else if t->Ok_0 != "Fixed"@ {
        Err(DecodeError::UnknownVariant)
    } else if exists|i: int| 0 <= i < fs.len() && !fixed_price_key(#[trigger] fs[i].0) {
        Err(DecodeError::MalformedField)
    } else {
        let a = float_at(fs, "amount"@);
        let c = text_at(fs, "currency"@);
        if a is Err {
            Err(a->Err_0)
        } else if c is Err {
            Err(c->Err_0)
        } else {
            Ok(PriceView::Fixed { amount: Amount { bits: a->Ok_0 }, currency: c->Ok_0 })
        }
    }
}

pub open spec fn parse_price(w: WireValue) -> Result<PriceView, DecodeError> {
    match w {
        WireValue::Object(fs) => parse_price_fields(fs),
        _ => Err(DecodeError::MalformedField),
    }
}

pub proof fn lemma_parse_price_fields(p: PriceView)
    ensures
        parse_price_fields(price_fields(p)) == Ok::<PriceView, DecodeError>(p),
{
    reveal_with_fuel(lookup, 4);
    reveal_strlit("type");
    reveal_strlit("amount");
    reveal_strlit("currency");
    reveal_strlit("Fixed");
    assert("amount"@.len() != "type"@.len());
    assert("currency"@.len() != "type"@.len());
    assert("currency"@.len() != "amount"@.len());
    assert("Fixed"@.len() != "type"@.len());
    assert("Fixed"@.len() != "amount"@.len());
    assert("Fixed"@.len() != "currency"@.len());
}

pub fn price_field_vec(p: &Price) -> (r: Vec<Field>)
    ensures
        fields_view(r@) == price_fields(p@),
{
    match p {
        Price::Fixed { amount, currency } => {
            let mut r: Vec<Field> = Vec::new();
            r.push(Field { key: "type".to_string(), value: Wire::Text("Fixed".to_string()) });
            r.push(Field { key: "amount".to_string(), value: Wire::Float32(amount.bits) });
            r.push(Field { key: "currency".to_string(), value: Wire::Text(currency.clone()) });
            assert(fields_view(r@) =~= price_fields(p@));
            r
        },
    }
}

pub fn decode_price_fields(fields: &Vec<Field>) -> (r: Result<Price, DecodeError>)
    ensures
        viewed(r) == parse_price_fields(fields_view(fields@)),
{
    let ghost fv = fields_view(fields@);
    let t = match get_text(fields, "type") {
        Ok(t) => t,
        Err(e) => return Err(e),
    };
    if !same_text(t.as_str(), "Fixed") {
        return Err(DecodeError::UnknownVariant);
    }
    let mut i: usize = 0;
    while i < fields.len()
        invariant
            0 <= i <= fields.len(),
            fv == fields_view(fields@),
            text_at(fv, "type"@) == Ok::<Seq<char>, DecodeError>(t@),
            t@ == "Fixed"@,
            forall|j: int| 0 <= j < i ==> fixed_price_key(#[trigger] fv[j].0),
        decreases fields.len() - i,
    {
        let k = fields[i].key.as_str();
        if !(same_text(k, "type") || same_text(k, "amount") || same_text(k, "currency")) {
            assert(fv[i as int].0 == k@);
            assert(!fixed_price_key(fv[i as int].0));
            return Err(DecodeError::MalformedField);
        }
        i = i + 1;
    }
    let bits = match get_float32(fields, "amount") {
        Ok(b) => b,
        Err(e) => return Err(e),
    };
    let currency = match get_text(fields, "currency") {
        Ok(c) => c,
        Err(e) => return Err(e),
    };
    Ok(Price::Fixed { amount: Amount { bits }, currency })
}

impl Price {
    /// The price as an object of its own: `type`, then the variant's fields.
    pub fn encode(&self) -> (w: Wire)
        ensures
            w@ == WireValue::Object(price_fields(self@)),
    {
        let fields = price_field_vec(self);
        proof { lemma_object_view(fields); }
        Wire::Object(fields)
    }

    pub fn decode(w: Wire) -> (r: Result<Price, DecodeError>)
        ensures
            viewed(r) == parse_price(w@),
    {
        match w {
            Wire::Object(fields) => {
                proof { lemma_object_view(fields); }
                decode_price_fields(&fields)
            },
            _ => Err(DecodeError::MalformedField),
        }
    }
}


pub open spec fn image_wire(i: ImageView) -> WireValue {
    WireValue::Object(seq![("url"@, WireValue::Text(i.url))])
}

pub open spec fn parse_image(w: WireValue) -> Result<ImageView, DecodeError> {
    match w {
        WireValue::Object(fs) => match text_at(fs, "url"@) {
            Ok(u) => Ok(ImageView { url: u }),
            Err(e) => Err(e),
        },
        _ => Err(DecodeError::MalformedField),
    }
}

pub open spec fn images_wire(s: Seq<ImageView>) -> Seq<WireValue> {
    s.map_values(|i: ImageView| image_wire(i))
}

/// Reads a list of images.
pub open spec fn parse_images(items: Seq<WireValue>) -> Result<Seq<ImageView>, DecodeError>
    decreases items.len(),
{
    if items.len() == 0 {
        Ok(Seq::empty())
    } else {
        match parse_image(items[0]) {
            Ok(i) => match parse_images(items.drop_first()) {
                Ok(rest) => Ok(seq![i] + rest),
                Err(e) => Err(e),
            },
            Err(e) => Err(e),
        }
    }
}

pub proof fn lemma_parse_images(s: Seq<ImageView>)
    ensures
        parse_images(images_wire(s)) == Ok::<Seq<ImageView>, DecodeError>(s),
    decreases s.len(),
{
    reveal_with_fuel(lookup, 2);
    if s.len() > 0 {
        assert(images_wire(s).drop_first() =~= images_wire(s.drop_first()));
        assert(images_wire(s)[0] == image_wire(s[0]));
        lemma_parse_images(s.drop_first());
        assert(seq![s[0]] + s.drop_first() =~= s);
    } else {
        assert(images_wire(s) =~= Seq::<WireValue>::empty());
        assert(s =~= Seq::<ImageView>::empty());
    }
}

impl Image {
    pub fn encode(&self) -> (w: Wire)
        ensures
            w@ == image_wire(self@),
    {
        let mut fields: Vec<Field> = Vec::new();
        fields.push(Field { key: "url".to_string(), value: Wire::Text(self.url.clone()) });
        proof { lemma_object_view(fields); }
        assert(fields_view(fields@) =~= seq![("url"@, WireValue::Text(self.url@))]);
        Wire::Object(fields)
    }

    pub fn decode(w: Wire) -> (r: Result<Image, DecodeError>)
        ensures
            viewed(r) == parse_image(w@),
    {
        read_image(&w)
    }
}

pub fn read_image(w: &Wire) -> (r: Result<Image, DecodeError>)
    ensures
        viewed(r) == parse_image(w@),
{
    match w {
        Wire::Object(fields) => {
            proof { lemma_object_view(*fields); }
            match get_text(fields, "url") {
                Ok(url) => Ok(Image { url }),
                Err(e) => Err(e),
            }
        },
        _ => Err(DecodeError::MalformedField),
    }
}

pub fn encode_images(v: &Vec<Image>) -> (w: Wire)
    ensures
        w@ == WireValue::List(images_wire(images_view(v@))),
{
    let mut out: Vec<Wire> = Vec::new();
    let mut i: usize = 0;
    while i < v.len()
        invariant
            0 <= i <= v.len(),
            out.len() == i,
            forall|j: int| 0 <= j < i ==> (#[trigger] out@[j])@ == image_wire(v@[j]@),
        decreases v.len() - i,
    {
        out.push(v[i].encode());
        i = i + 1;
    }
    assert(wires_view(out@) =~= images_wire(images_view(v@)));
    proof { lemma_list_view(out); }
    Wire::List(out)
}

pub fn decode_images(items: &Vec<Wire>) -> (r: Result<Vec<Image>, DecodeError>)
    ensures
        match r {
            Ok(v) => parse_images(wires_view(items@)) == Ok::<Seq<ImageView>, DecodeError>(images_view(v@)),
            Err(e) => parse_images(wires_view(items@)) == Err::<Seq<ImageView>, DecodeError>(e),
        },
{
    let ghost iv = wires_view(items@);
    let ghost n = iv.len();
    let mut out: Vec<Image> = Vec::new();
    let mut i: usize = 0;
    assert(iv.subrange(0, n as int) =~= iv);
    assert(images_view(out@) + Seq::<ImageView>::empty() =~= images_view(out@));
    while i < items.len()
        invariant
            0 <= i <= items.len(),
            iv == wires_view(items@),
            n == iv.len(),
            parse_images(iv) == match parse_images(iv.subrange(i as int, n as int)) {
                Ok(rest) => Ok(images_view(out@) + rest),
                Err(e) => Err::<Seq<ImageView>, DecodeError>(e),
            },
        decreases items.len() - i,
    {
        let ghost sub = iv.subrange(i as int, n as int);
        assert(sub.drop_first() =~= iv.subrange(i + 1, n as int));
        assert(sub[0] == items[i as int]@);
        match read_image(&items[i]) {
            Ok(img) => {
                let ghost before = images_view(out@);
                out.push(img);
                assert(images_view(out@) =~= before + seq![img@]);
                assert forall|rest: Seq<ImageView>| before + (seq![img@] + rest) =~= images_view(out@) + rest by {}
            },
            Err(e) => {
                return Err(e);
            },
        }
        i = i + 1;
    }
    assert(iv.subrange(n as int, n as int) =~= Seq::<WireValue>::empty());
    assert(images_view(out@) + Seq::<ImageView>::empty() =~= images_view(out@));
    Ok(out)
}

/// The list of texts held by the member `key`.
pub open spec fn texts_at(fs: Seq<(Seq<char>, WireValue)>, key: Seq<char>) -> Result<Seq<Seq<char>>, DecodeError> {
    match lookup(fs, key) {
        None => Err(DecodeError::MissingField),
        Some(WireValue::List(items)) => parse_texts(items),
        Some(_) => Err(DecodeError::MalformedField),
    }
}

/// The list of images held by the member `key`.
pub open spec fn images_at(fs: Seq<(Seq<char>, WireValue)>, key: Seq<char>) -> Result<Seq<ImageView>, DecodeError> {
    match lookup(fs, key) {
        None => Err(DecodeError::MissingField),
        Some(WireValue::List(items)) => parse_images(items),
        Some(_) => Err(DecodeError::MalformedField),
    }
}

pub fn get_texts(fields: &Vec<Field>, key: &str) -> (r: Result<Vec<String>, DecodeError>)
    ensures
        match r {
            Ok(v) => texts_at(fields_view(fields@), key@) == Ok::<Seq<Seq<char>>, DecodeError>(texts_view(v@)),
            Err(e) => texts_at(fields_view(fields@), key@) == Err::<Seq<Seq<char>>, DecodeError>(e),
        },
{
    match crate::wire::find_field(fields, key) {
        None => Err(DecodeError::MissingField),
        Some(Wire::List(items)) => {
            proof { lemma_list_view(*items); }
            decode_texts(items)
        },
        Some(_) => Err(DecodeError::MalformedField),
    }
}

pub fn get_images(fields: &Vec<Field>, key: &str) -> (r: Result<Vec<Image>, DecodeError>)
    ensures
        match r {
            Ok(v) => images_at(fields_view(fields@), key@) == Ok::<Seq<ImageView>, DecodeError>(images_view(v@)),
            Err(e) => images_at(fields_view(fields@), key@) == Err::<Seq<ImageView>, DecodeError>(e),
        },
{
    match crate::wire::find_field(fields, key) {
        None => Err(DecodeError::MissingField),
        Some(Wire::List(items)) => {
            proof { lemma_list_view(*items); }
            decode_images(items)
        },
        Some(_) => Err(DecodeError::MalformedField),
    }
}

/// The category named by the member `key`.
pub open spec fn category_at(fs: Seq<(Seq<char>, WireValue)>, key: Seq<char>) -> Result<ItemCategory, DecodeError> {
    match text_at(fs, key) {
        Ok(t) => match ItemCategory::from_tag_spec(t) {
            Some(c) => Ok(c),
            None => Err(DecodeError::UnknownVariant),
        },
        Err(e) => Err(e),
    }
}

/// The measurement unit named by the member `key`.
pub open spec fn unit_at(fs: Seq<(Seq<char>, WireValue)>, key: Seq<char>) -> Result<ItemMeasurmentUnits, DecodeError> {
    match text_at(fs, key) {
        Ok(t) => match ItemMeasurmentUnits::from_tag_spec(t) {
            Some(u) => Ok(u),
            None => Err(DecodeError::UnknownVariant),
        },
        Err(e) => Err(e),
    }
}

pub fn get_category(fields: &Vec<Field>, key: &str) -> (r: Result<ItemCategory, DecodeError>)
    ensures
        r == category_at(fields_view(fields@), key@),
{
    match get_text(fields, key) {
        Ok(t) => match ItemCategory::from_tag(t.as_str()) {
            Some(c) => Ok(c),
            None => Err(DecodeError::UnknownVariant),
        },
        Err(e) => Err(e),
    }
}

pub fn get_unit(fields: &Vec<Field>, key: &str) -> (r: Result<ItemMeasurmentUnits, DecodeError>)
    ensures
        r == unit_at(fields_view(fields@), key@),
{
    match get_text(fields, key) {
        Ok(t) => match ItemMeasurmentUnits::from_tag(t.as_str()) {
            Some(u) => Ok(u),
            None => Err(DecodeError::UnknownVariant),
        },
        Err(e) => Err(e),
    }
}

/// The members of an item, in the order of its fields.
pub open spec fn item_fields(v: ItemView) -> Seq<(Seq<char>, WireValue)> {
    seq![
        ("category"@, WireValue::Text(v.category.tag_spec())),
        ("tags"@, WireValue::List(texts_wire(v.tags))),
        ("name"@, WireValue::Text(v.name)),
        ("description"@, WireValue::Text(v.description)),
        ("enabled"@, WireValue::Bool(v.enabled)),
    ]
}

pub open spec fn parse_item_fields(fs: Seq<(Seq<char>, WireValue)>) -> Result<ItemView, DecodeError> {
    let c = category_at(fs, "category"@);
    let t = texts_at(fs, "tags"@);
    let n = text_at(fs, "name"@);
    let d = text_at(fs, "description"@);
    let e = bool_at(fs, "enabled"@);
    if c is Err {
        Err(c->Err_0)
    } else if t is Err {
        Err(t->Err_0)
    } else if n is Err {
        Err(n->Err_0)
    } else if d is Err {
        Err(d->Err_0)
    } else if e is Err {
        Err(e->Err_0)
    } else {
        Ok(ItemView { category: c->Ok_0, tags: t->Ok_0, name: n->Ok_0, description: d->Ok_0, enabled: e->Ok_0 })
    }
}

pub open spec fn parse_item(w: WireValue) -> Result<ItemView, DecodeError> {
    match w {
        WireValue::Object(fs) => parse_item_fields(fs),
        _ => Err(DecodeError::MalformedField),
    }
}

pub proof fn lemma_parse_item_fields(v: ItemView)
    ensures
        parse_item_fields(item_fields(v)) == Ok::<ItemView, DecodeError>(v),
{
    reveal_with_fuel(lookup, 6);
    v.category.lemma_tag_round_trip();
    lemma_parse_texts(v.tags);
    reveal_strlit("category");
    reveal_strlit("tags");
    reveal_strlit("name");
    reveal_strlit("description");
    reveal_strlit("enabled");
    assert("tags"@.len() != "category"@.len());
    assert("name"@.len() != "category"@.len());
    assert("name"@[0] != "tags"@[0]);
    assert("description"@.len() != "category"@.len());
    assert("description"@.len() != "tags"@.len());
    assert("description"@.len() != "name"@.len());
    assert("enabled"@.len() != "category"@.len());
    assert("enabled"@.len() != "tags"@.len());
    assert("enabled"@.len() != "name"@.len());
    assert("enabled"@.len() != "description"@.len());
}

impl Item {
    /// The item as an object of its own fields.
    pub fn encode(&self) -> (w: Wire)
        ensures
            w@ == WireValue::Object(item_fields(self@)),
    {
        let mut fields: Vec<Field> = Vec::new();
        fields.push(Field { key: "category".to_string(), value: Wire::Text(self.category.tag().to_string()) });
        fields.push(Field { key: "tags".to_string(), value: encode_texts(&self.tags) });
        fields.push(Field { key: "name".to_string(), value: Wire::Text(self.name.clone()) });
        fields.push(Field { key: "description".to_string(), value: Wire::Text(self.description.clone()) });
        fields.push(Field { key: "enabled".to_string(), value: Wire::Bool(self.enabled) });
        proof { lemma_object_view(fields); }
        assert(fields_view(fields@) =~= item_fields(self@));
        Wire::Object(fields)
    }

    pub fn decode(w: Wire) -> (r: Result<Item, DecodeError>)
        ensures
            viewed(r) == parse_item(w@),
    {
        match w {
            Wire::Object(fields) => {
                proof { lemma_object_view(fields); }
                decode_item_fields(&fields)
            },
            _ => Err(DecodeError::MalformedField),
        }
    }
}

pub fn decode_item_fields(fields: &Vec<Field>) -> (r: Result<Item, DecodeError>)
    ensures
        viewed(r) == parse_item_fields(fields_view(fields@)),
{
    let category = match get_category(fields, "category") {
        Ok(c) => c,
        Err(e) => return Err(e),
    };
    let tags = match get_texts(fields, "tags") {
        Ok(t) => t,
        Err(e) => return Err(e),
    };
    let name = match get_text(fields, "name") {
        Ok(n) => n,
        Err(e) => return Err(e),
    };
    let description = match get_text(fields, "description") {
        Ok(d) => d,
        Err(e) => return Err(e),
    };
    let enabled = match get_bool(fields, "enabled") {
        Ok(b) => b,
        Err(e) => return Err(e),
    };
    Ok(Item { category, tags, name, description, enabled })
}

/// The namespace under which a price's members are flattened into the record
/// that holds it.
pub open spec fn price_prefix() -> Seq<char> {
    "price_"@
}

/// The price held, flattened, by a record's members.
pub open spec fn price_within(fs: Seq<(Seq<char>, WireValue)>) -> Result<PriceView, DecodeError> {
    parse_price_fields(unprefixed(price_prefix(), fs))
}

/// The identifier held by the member `key`.
pub open spec fn id_at<Id: WireForm>(fs: Seq<(Seq<char>, WireValue)>, key: Seq<char>) -> Result<Id::V, DecodeError> {
    match lookup(fs, key) {
        None => Err(DecodeError::MissingField),
        Some(w) => Id::parse_wire(w),
    }
}

/// The optional text held by the member `key`: absent and null both read as none.
pub open spec fn optional_text_at(fs: Seq<(Seq<char>, WireValue)>, key: Seq<char>) -> Result<Option<Seq<char>>, DecodeError> {
    match lookup(fs, key) {
        None => Ok(None),
        Some(WireValue::Null) => Ok(None),
        Some(WireValue::Text(t)) => Ok(Some(t)),
        Some(_) => Err(DecodeError::MalformedField),
    }
}

pub open spec fn optional_text_wire(o: Option<Seq<char>>) -> WireValue {
    match o {
        Some(t) => WireValue::Text(t),
        None => WireValue::Null,
    }
}

pub fn get_id<Id: WireForm>(fields: &Vec<Field>, key: &str) -> (r: Result<Id, DecodeError>)
    ensures
        viewed(r) == id_at::<Id>(fields_view(fields@), key@),
{
    match crate::wire::find_field(fields, key) {
        None => Err(DecodeError::MissingField),
        Some(w) => Id::from_wire(w),
    }
}

pub fn get_optional_text(fields: &Vec<Field>, key: &str) -> (r: Result<Option<String>, DecodeError>)
    ensures
        match r {
            Ok(o) => optional_text_at(fields_view(fields@), key@) == Ok::<Option<Seq<char>>, DecodeError>(option_text_view(o)),
            Err(e) => optional_text_at(fields_view(fields@), key@) == Err::<Option<Seq<char>>, DecodeError>(e),
        },
{
    match crate::wire::find_field(fields, key) {
        None => Ok(None),
        Some(Wire::Null) => Ok(None),
        Some(Wire::Text(t)) => Ok(Some(t.clone())),
        Some(_) => Err(DecodeError::MalformedField),
    }
}

/// Reads the price flattened into a record's members.
pub fn take_price(fields: Vec<Field>) -> (r: Result<Price, DecodeError>)
    ensures
        viewed(r) == price_within(fields_view(fields@)),
{
    let inner = unprefix_fields("price_", fields);
    decode_price_fields(&inner)
}

/// Appends the members of `price`, each under the price namespace.
pub fn push_price(fields: &mut Vec<Field>, price: &Price)
    ensures
        fields_view(final(fields)@) == fields_view(old(fields)@) + prefixed(price_prefix(), price_fields(price@)),
{
    let flat = prefix_fields("price_", price_field_vec(price));
    let ghost before = fields_view(fields@);
    let mut flat = flat;
    let ghost all = fields_view(flat@);
    while flat.len() > 0
        invariant
            fields_view(fields@) == before + all.subrange(0, all.len() - flat.len()),
            fields_view(flat@) == all.subrange(all.len() - flat.len(), all.len() as int),
            flat.len() <= all.len(),
        decreases flat.len(),
    {
        let ghost sub = fields_view(flat@);
        let ghost k = all.len() - flat.len();
        let ghost prev = fields_view(fields@);
        let f = flat.remove(0);
        assert(sub[0] == f@);
        assert(sub[0] == all[k]);
        assert(sub.drop_first() =~= fields_view(flat@));
        fields.push(f);
        assert(fields_view(fields@) =~= prev.push(f@));
        assert(all.subrange(0, k + 1) =~= all.subrange(0, k).push(all[k]));
        assert(fields_view(fields@) =~= before + all.subrange(0, all.len() - flat.len()));
        assert(fields_view(flat@) =~= all.subrange(all.len() - flat.len(), all.len() as int));
    }
    assert(all.subrange(0, all.len() as int) =~= all);
}

/// A variation's own members, before its flattened price.
pub open spec fn variation_own_fields<Id: WireForm>(v: VariationView<Id::V>) -> Seq<(Seq<char>, WireValue)> {
    seq![
        ("item_id"@, Id::wire_of(v.item_id)),
        ("name"@, WireValue::Text(v.name)),
        ("sku"@, WireValue::Text(v.sku)),
        ("images"@, WireValue::List(images_wire(v.images))),
        ("upc"@, optional_text_wire(v.upc)),
        ("enabled"@, WireValue::Bool(v.enabled)),
        ("measurement_units"@, WireValue::Text(v.measurement_units.tag_spec())),
        ("available_units"@, WireValue::Int(v.available_units as int)),
    ]
}

/// A variation's members: its own, then its price's under the price namespace.
pub open spec fn variation_fields<Id: WireForm>(v: VariationView<Id::V>) -> Seq<(Seq<char>, WireValue)> {
    variation_own_fields::<Id>(v) + prefixed(price_prefix(), price_fields(v.price))
}

pub open spec fn parse_variation_fields<Id: WireForm>(fs: Seq<(Seq<char>, WireValue)>) -> Result<VariationView<Id::V>, DecodeError> {
    let id = id_at::<Id>(fs, "item_id"@);
    let n = text_at(fs, "name"@);
    let s = text_at(fs, "sku"@);
    let im = images_at(fs, "images"@);
    let u = optional_text_at(fs, "upc"@);
    let e = bool_at(fs, "enabled"@);
    let mu = unit_at(fs, "measurement_units"@);
    let au = bounded_at(fs, "available_units"@, i32::MIN as int, i32::MAX as int);
    let p = price_within(fs);
    if id is Err {
        Err(id->Err_0)
    } else if n is Err {
        Err(n->Err_0)
    } else if s is Err {
        Err(s->Err_0)
    } else if im is Err {
        Err(im->Err_0)
    } else if u is Err {
        Err(u->Err_0)
    } else if e is Err {
        Err(e->Err_0)
    } else if mu is Err {
        Err(mu->Err_0)
    } else if au is Err {
        Err(au->Err_0)
    } else if p is Err {
        Err(p->Err_0)
    } else {
        Ok(VariationView {
            item_id: id->Ok_0,
            name: n->Ok_0,
            sku: s->Ok_0,
            images: im->Ok_0,
            upc: u->Ok_0,
            enabled: e->Ok_0,
            measurement_units: mu->Ok_0,
            available_units: au->Ok_0 as i32,
            price: p->Ok_0,
        })
    }
}

pub open spec fn parse_variation<Id: WireForm>(w: WireValue) -> Result<VariationView<Id::V>, DecodeError> {
    match w {
        WireValue::Object(fs) => parse_variation_fields::<Id>(fs),
        _ => Err(DecodeError::MalformedField),
    }
}

pub proof fn lemma_price_within(own: Seq<(Seq<char>, WireValue)>, p: PriceView)
    requires
        forall|i: int| 0 <= i < own.len() ==> !has_prefix(#[trigger] own[i].0, price_prefix()),
    ensures
        price_within(own + prefixed(price_prefix(), price_fields(p))) == Ok::<PriceView, DecodeError>(p),
{
    lemma_unprefixed_append(price_prefix(), own, prefixed(price_prefix(), price_fields(p)));
    lemma_unprefixed_none(price_prefix(), own);
    lemma_unprefixed_prefixed(price_prefix(), price_fields(p));
    assert(Seq::<(Seq<char>, WireValue)>::empty() + price_fields(p) =~= price_fields(p));
    lemma_parse_price_fields(p);
}

pub proof fn lemma_parse_variation_fields<Id: WireForm>(v: VariationView<Id::V>)
    ensures
        parse_variation_fields::<Id>(variation_fields::<Id>(v)) == Ok::<VariationView<Id::V>, DecodeError>(v),
{
    let own = variation_own_fields::<Id>(v);
    let flat = prefixed(price_prefix(), price_fields(v.price));
    let fs = variation_fields::<Id>(v);
    reveal_with_fuel(lookup, 9);
    reveal_strlit("item_id");
    reveal_strlit("name");
    reveal_strlit("sku");
    reveal_strlit("images");
    reveal_strlit("upc");
    reveal_strlit("enabled");
    reveal_strlit("measurement_units");
    reveal_strlit("available_units");
    assert("name"@.len() != "item_id"@.len());
    assert("sku"@.len() != "item_id"@.len());
    assert("sku"@.len() != "name"@.len());
    assert("images"@.len() != "item_id"@.len());
    assert("images"@.len() != "name"@.len());
    assert("images"@.len() != "sku"@.len());
    assert("upc"@.len() != "item_id"@.len());
    assert("upc"@.len() != "name"@.len());
    assert("upc"@[0] != "sku"@[0]);
    assert("upc"@.len() != "images"@.len());
    assert("enabled"@[0] != "item_id"@[0]);
    assert("enabled"@.len() != "name"@.len());
    assert("enabled"@.len() != "sku"@.len());
    assert("enabled"@.len() != "images"@.len());
    assert("enabled"@.len() != "upc"@.len());
    assert("measurement_units"@.len() != "item_id"@.len());
    assert("measurement_units"@.len() != "name"@.len());
    assert("measurement_units"@.len() != "sku"@.len());
    assert("measurement_units"@.len() != "images"@.len());
    assert("measurement_units"@.len() != "upc"@.len());
    assert("measurement_units"@.len() != "enabled"@.len());
    assert("available_units"@.len() != "item_id"@.len());
    assert("available_units"@.len() != "name"@.len());
    assert("available_units"@.len() != "sku"@.len());
    assert("available_units"@.len() != "images"@.len());
    assert("available_units"@.len() != "upc"@.len());
    assert("available_units"@.len() != "enabled"@.len());
    assert("available_units"@.len() != "measurement_units"@.len());
    reveal_strlit("price_");
    reveal_strlit("item_id");
    assert("item_id"@.subrange(0, 6)[0] != "price_"@[0]);
    reveal_strlit("name");
    assert("name"@.len() < "price_"@.len());
    reveal_strlit("sku");
    assert("sku"@.len() < "price_"@.len());
    reveal_strlit("images");
    assert("images"@.subrange(0, 6)[0] != "price_"@[0]);
    reveal_strlit("upc");
    assert("upc"@.len() < "price_"@.len());
    reveal_strlit("enabled");
    assert("enabled"@.subrange(0, 6)[0] != "price_"@[0]);
    reveal_strlit("measurement_units");
    assert("measurement_units"@.subrange(0, 6)[0] != "price_"@[0]);
    reveal_strlit("available_units");
    assert("available_units"@.subrange(0, 6)[0] != "price_"@[0]);
    assert forall|i: int| 0 <= i < own.len() implies !has_prefix(#[trigger] own[i].0, price_prefix()) by {
        assert(i == 0 || i == 1 || i == 2 || i == 3 || i == 4 || i == 5 || i == 6 || i == 7);
    }
    lemma_price_within(own, v.price);
    lemma_lookup_append(own, flat, "item_id"@);
    lemma_lookup_append(own, flat, "name"@);
    lemma_lookup_append(own, flat, "sku"@);
    lemma_lookup_append(own, flat, "images"@);
    lemma_lookup_append(own, flat, "upc"@);
    lemma_lookup_append(own, flat, "enabled"@);
    lemma_lookup_append(own, flat, "measurement_units"@);
    lemma_lookup_append(own, flat, "available_units"@);
    Id::lemma_parse_wire_of(v.item_id);
    lemma_parse_images(v.images);
    v.measurement_units.lemma_tag_round_trip();
}

/// A modification's own members, before its flattened price.
pub open spec fn modification_own_fields<Id: WireForm>(m: ModificationView<Id::V>) -> Seq<(Seq<char>, WireValue)> {
    seq![
        ("item_id"@, Id::wire_of(m.item_id)),
        ("name"@, WireValue::Text(m.name)),
        ("images"@, WireValue::List(images_wire(m.images))),
        ("enabled"@, WireValue::Bool(m.enabled)),
    ]
}

/// A modification's members: its own, then its price's under the price namespace.
pub open spec fn modification_fields<Id: WireForm>(m: ModificationView<Id::V>) -> Seq<(Seq<char>, WireValue)> {
    modification_own_fields::<Id>(m) + prefixed(price_prefix(), price_fields(m.price))
}

pub open spec fn parse_modification_fields<Id: WireForm>(fs: Seq<(Seq<char>, WireValue)>) -> Result<ModificationView<Id::V>, DecodeError> {
    let id = id_at::<Id>(fs, "item_id"@);
    let n = text_at(fs, "name"@);
    let im = images_at(fs, "images"@);
    let e = bool_at(fs, "enabled"@);
    let p = price_within(fs);
    if id is Err {
        Err(id->Err_0)
    } else if n is Err {
        Err(n->Err_0)
    } else if im is Err {
        Err(im->Err_0)
    } else if e is Err {
        Err(e->Err_0)
    } else if p is Err {
        Err(p->Err_0)
    } else {
        Ok(ModificationView { item_id: id->Ok_0, name: n->Ok_0, images: im->Ok_0, price: p->Ok_0, enabled: e->Ok_0 })
    }
}

pub open spec fn parse_modification<Id: WireForm>(w: WireValue) -> Result<ModificationView<Id::V>, DecodeError> {
    match w {
        WireValue::Object(fs) => parse_modification_fields::<Id>(fs),
        _ => Err(DecodeError::MalformedField),
    }
}

pub proof fn lemma_parse_modification_fields<Id: WireForm>(m: ModificationView<Id::V>)
    ensures
        parse_modification_fields::<Id>(modification_fields::<Id>(m)) == Ok::<ModificationView<Id::V>, DecodeError>(m),
{
    let own = modification_own_fields::<Id>(m);
    let flat = prefixed(price_prefix(), price_fields(m.price));
    reveal_with_fuel(lookup, 5);
    reveal_strlit("item_id");
    reveal_strlit("name");
    reveal_strlit("images");
    reveal_strlit("enabled");
    assert("name"@.len() != "item_id"@.len());
    assert("images"@.len() != "item_id"@.len());
    assert("images"@.len() != "name"@.len());
    assert("enabled"@[0] != "item_id"@[0]);
    assert("enabled"@.len() != "name"@.len());
    assert("enabled"@.len() != "images"@.len());
    reveal_strlit("price_");
    reveal_strlit("item_id");
    assert("item_id"@.subrange(0, 6)[0] != "price_"@[0]);
    reveal_strlit("name");
    assert("name"@.len() < "price_"@.len());
    reveal_strlit("images");
    assert("images"@.subrange(0, 6)[0] != "price_"@[0]);
    reveal_strlit("enabled");
    assert("enabled"@.subrange(0, 6)[0] != "price_"@[0]);
    assert forall|i: int| 0 <= i < own.len() implies !has_prefix(#[trigger] own[i].0, price_prefix()) by {
        assert(i == 0 || i == 1 || i == 2 || i == 3);
    }
    lemma_price_within(own, m.price);
    lemma_lookup_append(own, flat, "item_id"@);
    lemma_lookup_append(own, flat, "name"@);
    lemma_lookup_append(own, flat, "images"@);
    lemma_lookup_append(own, flat, "enabled"@);
    Id::lemma_parse_wire_of(m.item_id);
    lemma_parse_images(m.images);
}

impl<Id: WireForm> ItemVariation<Id> {
    pub fn field_vec(&self) -> (r: Vec<Field>)
        ensures
            fields_view(r@) == variation_fields::<Id>(self@),
    {
        let mut fields: Vec<Field> = Vec::new();
        fields.push(Field { key: "item_id".to_string(), value: self.item_id.to_wire() });
        fields.push(Field { key: "name".to_string(), value: Wire::Text(self.name.clone()) });
        fields.push(Field { key: "sku".to_string(), value: Wire::Text(self.sku.clone()) });
        fields.push(Field { key: "images".to_string(), value: encode_images(&self.images) });
        let upc = match &self.upc {
            Some(u) => Wire::Text(u.clone()),
            None => Wire::Null,
        };
        fields.push(Field { key: "upc".to_string(), value: upc });
        fields.push(Field { key: "enabled".to_string(), value: Wire::Bool(self.enabled) });
        fields.push(Field { key: "measurement_units".to_string(), value: Wire::Text(self.measurement_units.tag().to_string()) });
        fields.push(Field { key: "available_units".to_string(), value: Wire::Int(self.available_units as i128) });
        assert(fields_view(fields@) =~= variation_own_fields::<Id>(self@));
        push_price(&mut fields, &self.price);
        fields
    }

    /// The variation as one flat object: its own fields, then its price's
    /// fields named with the `price_` prefix.
    pub fn encode(&self) -> (w: Wire)
        ensures
            w@ == WireValue::Object(variation_fields::<Id>(self@)),
    {
        let fields = self.field_vec();
        proof { lemma_object_view(fields); }
        Wire::Object(fields)
    }

    pub fn decode_fields(fields: Vec<Field>) -> (r: Result<ItemVariation<Id>, DecodeError>)
        ensures
            viewed(r) == parse_variation_fields::<Id>(fields_view(fields@)),
    {
        let item_id = match get_id::<Id>(&fields, "item_id") {
            Ok(v) => v,
            Err(e) => return Err(e),
        };
        let name = match get_text(&fields, "name") {
            Ok(v) => v,
            Err(e) => return Err(e),
        };
        let sku = match get_text(&fields, "sku") {
            Ok(v) => v,
            Err(e) => return Err(e),
        };
        let images = match get_images(&fields, "images") {
            Ok(v) => v,
            Err(e) => return Err(e),
        };
        let upc = match get_optional_text(&fields, "upc") {
            Ok(v) => v,
            Err(e) => return Err(e),
        };
        let enabled = match get_bool(&fields, "enabled") {
            Ok(v) => v,
            Err(e) => return Err(e),
        };
        let measurement_units = match get_unit(&fields, "measurement_units") {
            Ok(v) => v,
            Err(e) => return Err(e),
        };
        let available_units = match get_bounded(&fields, "available_units", i32::MIN as i128, i32::MAX as i128) {
            Ok(v) => v as i32,
            Err(e) => return Err(e),
        };
        let price = match take_price(fields) {
            Ok(v) => v,
            Err(e) => return Err(e),
        };
        Ok(ItemVariation { item_id, name, sku, images, upc, enabled, measurement_units, available_units, price })
    }

    pub fn decode(w: Wire) -> (r: Result<ItemVariation<Id>, DecodeError>)
        ensures
            viewed(r) == parse_variation::<Id>(w@),
    {
        match w {
            Wire::Object(fields) => {
                proof { lemma_object_view(fields); }
                Self::decode_fields(fields)
            },
            _ => Err(DecodeError::MalformedField),
        }
    }
}

impl<Id: WireForm> ItemModification<Id> {
    pub fn field_vec(&self) -> (r: Vec<Field>)
        ensures
            fields_view(r@) == modification_fields::<Id>(self@),
    {
        let mut fields: Vec<Field> = Vec::new();
        fields.push(Field { key: "item_id".to_string(), value: self.item_id.to_wire() });
        fields.push(Field { key: "name".to_string(), value: Wire::Text(self.name.clone()) });
        fields.push(Field { key: "images".to_string(), value: encode_images(&self.images) });
        fields.push(Field { key: "enabled".to_string(), value: Wire::Bool(self.enabled) });
        assert(fields_view(fields@) =~= modification_own_fields::<Id>(self@));
        push_price(&mut fields, &self.price);
        fields
    }

    /// The modification as one flat object: its own fields, then its price's
    /// fields named with the `price_` prefix.
    pub fn encode(&self) -> (w: Wire)
        ensures
            w@ == WireValue::Object(modification_fields::<Id>(self@)),
    {
        let fields = self.field_vec();
        proof { lemma_object_view(fields); }
        Wire::Object(fields)
    }

    pub fn decode_fields(fields: Vec<Field>) -> (r: Result<ItemModification<Id>, DecodeError>)
        ensures
            viewed(r) == parse_modification_fields::<Id>(fields_view(fields@)),
    {
        let item_id = match get_id::<Id>(&fields, "item_id") {
            Ok(v) => v,
            Err(e) => return Err(e),
        };
        let name = match get_text(&fields, "name") {
            Ok(v) => v,
            Err(e) => return Err(e),
        };
        let images = match get_images(&fields, "images") {
            Ok(v) => v,
            Err(e) => return Err(e),
        };
        let enabled = match get_bool(&fields, "enabled") {
            Ok(v) => v,
            Err(e) => return Err(e),
        };
        let price = match take_price(fields) {
            Ok(v) => v,
            Err(e) => return Err(e),
        };
        Ok(ItemModification { item_id, name, images, price, enabled })
    }

    pub fn decode(w: Wire) -> (r: Result<ItemModification<Id>, DecodeError>)
        ensures
            viewed(r) == parse_modification::<Id>(w@),
    {
        match w {
            Wire::Object(fields) => {
                proof { lemma_object_view(fields); }
                Self::decode_fields(fields)
            },
            _ => Err(DecodeError::MalformedField),
        }
    }
}

/// The discriminator under which each kind of catalog entry is written.
pub open spec fn catalog_tag<I>(o: CatalogObjectView<I>) -> Seq<char> {
    match o {
        CatalogObjectView::Item(_) => "Item"@,
        CatalogObjectView::Variation(_) => "Variation"@,
        CatalogObjectView::Modification(_) => "Modification"@,
    }
}

/// The payload of a catalog entry: the entity shape's own object, nested.
pub open spec fn catalog_payload<Id: WireForm>(o: CatalogObjectView<Id::V>) -> WireValue {
    match o {
        CatalogObjectView::Item(it) => WireValue::Object(item_fields(it)),
        CatalogObjectView::Variation(v) => WireValue::Object(variation_fields::<Id>(v)),
        CatalogObjectView::Modification(m) => WireValue::Object(modification_fields::<Id>(m)),
    }
}

/// The members of a catalog entry: `type`, then `data`.
pub open spec fn catalog_fields<Id: WireForm>(o: CatalogObjectView<Id::V>) -> Seq<(Seq<char>, WireValue)> {
    seq![("type"@, WireValue::Text(catalog_tag(o))), ("data"@, catalog_payload::<Id>(o))]
}

pub open spec fn parse_catalog_fields<Id: WireForm>(fs: Seq<(Seq<char>, WireValue)>) -> Result<CatalogObjectView<Id::V>, DecodeError> {
    let t = text_at(fs, "type"@);
    if t is Err {
        Err(t->Err_0)
    } else if t->Ok_0 != "Item"@ && t->Ok_0 != "Variation"@ && t->Ok_0 != "Modification"@ {
        Err(DecodeError::UnknownVariant)
    } else {
        match lookup(fs, "data"@) {
            None => Err(DecodeError::MissingField),
            Some(d) => if t->Ok_0 == "Item"@ {
                match parse_item(d) {
                    Ok(it) => Ok(CatalogObjectView::Item(it)),
                    Err(e) => Err(e),
                }
            } else if t->Ok_0 == "Variation"@ {
                match parse_variation::<Id>(d) {
                    Ok(v) => Ok(CatalogObjectView::Variation(v)),
                    Err(e) => Err(e),
                }
            } else {
                match parse_modification::<Id>(d) {
                    Ok(m) => Ok(CatalogObjectView::Modification(m)),
                    Err(e) => Err(e),
                }
            },
        }
    }
}

pub open spec fn parse_catalog<Id: WireForm>(w: WireValue) -> Result<CatalogObjectView<Id::V>, DecodeError> {
    match w {
        WireValue::Object(fs) => parse_catalog_fields::<Id>(fs),
        _ => Err(DecodeError::MalformedField),
    }
}

pub proof fn lemma_parse_catalog_fields<Id: WireForm>(o: CatalogObjectView<Id::V>)
    ensures
        parse_catalog_fields::<Id>(catalog_fields::<Id>(o)) == Ok::<CatalogObjectView<Id::V>, DecodeError>(o),
{
    reveal_with_fuel(lookup, 3);
    reveal_strlit("type");
    reveal_strlit("data");
    reveal_strlit("Item");
    reveal_strlit("Variation");
    reveal_strlit("Modification");
    assert("data"@[0] != "type"@[0]);
    assert("Item"@[0] != "type"@[0]);
    assert("Item"@[0] != "data"@[0]);
    assert("Variation"@.len() != "type"@.len());
    assert("Variation"@.len() != "data"@.len());
    assert("Variation"@.len() != "Item"@.len());
    assert("Modification"@.len() != "type"@.len());
    assert("Modification"@.len() != "data"@.len());
    assert("Modification"@.len() != "Item"@.len());
    assert("Modification"@.len() != "Variation"@.len());
    match o {
        CatalogObjectView::Item(it) => lemma_parse_item_fields(it),
        CatalogObjectView::Variation(v) => lemma_parse_variation_fields::<Id>(v),
        CatalogObjectView::Modification(m) => lemma_parse_modification_fields::<Id>(m),
    }
}

impl<Id: WireForm> CatalogObject<Id> {
    pub fn field_vec(&self) -> (r: Vec<Field>)
        ensures
            fields_view(r@) == catalog_fields::<Id>(self@),
    {
        let (tag, payload) = match self {
            CatalogObject::Item(it) => ("Item", it.encode()),
            CatalogObject::Variation(v) => ("Variation", v.encode()),
            CatalogObject::Modification(m) => ("Modification", m.encode()),
        };
        let mut fields: Vec<Field> = Vec::new();
        fields.push(Field { key: "type".to_string(), value: Wire::Text(tag.to_string()) });
        fields.push(Field { key: "data".to_string(), value: payload });
        assert(fields_view(fields@) =~= catalog_fields::<Id>(self@));
        fields
    }

    /// The entry as an object with the discriminator `type` and the nested
    /// payload `data`.
    pub fn encode(&self) -> (w: Wire)
        ensures
            w@ == WireValue::Object(catalog_fields::<Id>(self@)),
    {
        let fields = self.field_vec();
        proof { lemma_object_view(fields); }
        Wire::Object(fields)
    }

    pub fn decode_fields(fields: Vec<Field>) -> (r: Result<CatalogObject<Id>, DecodeError>)
        ensures
            viewed(r) == parse_catalog_fields::<Id>(fields_view(fields@)),
    {
        let tag = match get_text(&fields, "type") {
            Ok(t) => t,
            Err(e) => return Err(e),
        };
        let is_item = same_text(tag.as_str(), "Item");
        let is_variation = same_text(tag.as_str(), "Variation");
        let is_modification = same_text(tag.as_str(), "Modification");
        if !is_item && !is_variation && !is_modification {
            return Err(DecodeError::UnknownVariant);
        }
        let data = match take_field(fields, "data") {
            Some(d) => d,
            None => return Err(DecodeError::MissingField),
        };
        if is_item {
            match Item::decode(data) {
                Ok(it) => Ok(CatalogObject::Item(it)),
                Err(e) => Err(e),
            }
        } else if is_variation {
            match ItemVariation::<Id>::decode(data) {
                Ok(v) => Ok(CatalogObject::Variation(v)),
                Err(e) => Err(e),
            }
        } else {
            match ItemModification::<Id>::decode(data) {
                Ok(m) => Ok(CatalogObject::Modification(m)),
                Err(e) => Err(e),
            }
        }
    }

    pub fn decode(w: Wire) -> (r: Result<CatalogObject<Id>, DecodeError>)
        ensures
            viewed(r) == parse_catalog::<Id>(w@),
    {
        match w {
            Wire::Object(fields) => {
                proof { lemma_object_view(fields); }
                Self::decode_fields(fields)
            },
            _ => Err(DecodeError::MalformedField),
        }
    }
}

/// The members of a document: its own four, then those of its entry, all at
/// one level.
pub open spec fn document_fields<Id: WireForm, Account: WireForm>(d: DocumentView<Id::V, Account::V>) -> Seq<(Seq<char>, WireValue)> {
    seq![
        ("id"@, Id::wire_of(d.id)),
        ("account"@, Account::wire_of(d.account)),
        ("version"@, WireValue::Int(d.version as int)),
        ("created_at"@, WireValue::Int(d.created_at as int)),
    ] + catalog_fields::<Id>(d.catalog_object)
}

pub open spec fn parse_document_fields<Id: WireForm, Account: WireForm>(fs: Seq<(Seq<char>, WireValue)>) -> Result<DocumentView<Id::V, Account::V>, DecodeError> {
    let id = id_at::<Id>(fs, "id"@);
    let a = id_at::<Account>(fs, "account"@);
    let v = bounded_at(fs, "version"@, 0, u16::MAX as int);
    let c = bounded_at(fs, "created_at"@, 0, u32::MAX as int);
    let o = parse_catalog_fields::<Id>(fs);
    if id is Err {
        Err(id->Err_0)
    } else if a is Err {
        Err(a->Err_0)
    } else if v is Err {
        Err(v->Err_0)
    } else if c is Err {
        Err(c->Err_0)
    } else if o is Err {
        Err(DecodeError::MalformedDocument(Box::new(o->Err_0)))
    } else {
        Ok(DocumentView {
            id: id->Ok_0,
            account: a->Ok_0,
            version: v->Ok_0 as u16,
            created_at: c->Ok_0 as u32,
            catalog_object: o->Ok_0,
        })
    }
}

pub open spec fn parse_document<Id: WireForm, Account: WireForm>(w: WireValue) -> Result<DocumentView<Id::V, Account::V>, DecodeError> {
    match w {
        WireValue::Object(fs) => parse_document_fields::<Id, Account>(fs),
        _ => Err(DecodeError::MalformedField),
    }
}

pub proof fn lemma_parse_document_fields<Id: WireForm, Account: WireForm>(d: DocumentView<Id::V, Account::V>)
    ensures
        parse_document_fields::<Id, Account>(document_fields::<Id, Account>(d)) == Ok::<DocumentView<Id::V, Account::V>, DecodeError>(d),
{
    let own = seq![
        ("id"@, Id::wire_of(d.id)),
        ("account"@, Account::wire_of(d.account)),
        ("version"@, WireValue::Int(d.version as int)),
        ("created_at"@, WireValue::Int(d.created_at as int)),
    ];
    let inner = catalog_fields::<Id>(d.catalog_object);
    let fs = document_fields::<Id, Account>(d);
    reveal_with_fuel(lookup, 7);
    reveal_strlit("id");
    reveal_strlit("account");
    reveal_strlit("version");
    reveal_strlit("created_at");
    reveal_strlit("type");
    reveal_strlit("data");
    assert("account"@.len() != "id"@.len());
    assert("version"@.len() != "id"@.len());
    assert("version"@[0] != "account"@[0]);
    assert("created_at"@.len() != "id"@.len());
    assert("created_at"@.len() != "account"@.len());
    assert("created_at"@.len() != "version"@.len());
    assert("type"@.len() != "id"@.len());
    assert("type"@.len() != "account"@.len());
    assert("type"@.len() != "version"@.len());
    assert("type"@.len() != "created_at"@.len());
    assert("data"@.len() != "id"@.len());
    assert("data"@.len() != "account"@.len());
    assert("data"@.len() != "version"@.len());
    assert("data"@.len() != "created_at"@.len());
    assert("data"@[0] != "type"@[0]);
    assert(fs == own + inner);
    lemma_lookup_append(own, inner, "id"@);
    lemma_lookup_append(own, inner, "account"@);
    lemma_lookup_append(own, inner, "version"@);
    lemma_lookup_append(own, inner, "created_at"@);
    lemma_lookup_append(own, inner, "type"@);
    lemma_lookup_append(own, inner, "data"@);
    lemma_lookup_append(inner, Seq::empty(), "type"@);
    assert(inner + Seq::<(Seq<char>, WireValue)>::empty() =~= inner);
    Id::lemma_parse_wire_of(d.id);
    Account::lemma_parse_wire_of(d.account);
    lemma_parse_catalog_fields::<Id>(d.catalog_object);
    assert(text_at(fs, "type"@) == text_at(inner, "type"@));
    assert(lookup(fs, "data"@) == lookup(inner, "data"@));
    assert(parse_catalog_fields::<Id>(fs) == parse_catalog_fields::<Id>(inner));
}

impl<Id: WireForm, Account: WireForm> CatalogObjectDocument<Id, Account> {
    /// The document as one flat object: `id`, `account`, `version`,
    /// `created_at`, then the entry's `type` and `data`.
    pub fn encode(&self) -> (w: Wire)
        ensures
            w@ == WireValue::Object(document_fields::<Id, Account>(self@)),
    {
        let mut fields: Vec<Field> = Vec::new();
        fields.push(Field { key: "id".to_string(), value: self.id.to_wire() });
        fields.push(Field { key: "account".to_string(), value: self.account.to_wire() });
        fields.push(Field { key: "version".to_string(), value: Wire::Int(self.version as i128) });
        fields.push(Field { key: "created_at".to_string(), value: Wire::Int(self.created_at as i128) });
        let ghost own = fields_view(fields@);
        let mut inner = self.catalog_object.field_vec();
        let ghost inner_view = fields_view(inner@);
        fields.append(&mut inner);
        assert(fields_view(fields@) =~= own + inner_view);
        assert(fields_view(fields@) =~= document_fields::<Id, Account>(self@));
        proof { lemma_object_view(fields); }
        Wire::Object(fields)
    }

    pub fn decode(w: Wire) -> (r: Result<CatalogObjectDocument<Id, Account>, DecodeError>)
        ensures
            viewed(r) == parse_document::<Id, Account>(w@),
    {
        match w {
            Wire::Object(fields) => {
                proof { lemma_object_view(fields); }
                let id = match get_id::<Id>(&fields, "id") {
                    Ok(v) => v,
                    Err(e) => return Err(e),
                };
                let account = match get_id::<Account>(&fields, "account") {
                    Ok(v) => v,
                    Err(e) => return Err(e),
                };
                let version = match get_bounded(&fields, "version", 0, u16::MAX as i128) {
                    Ok(v) => v as u16,
                    Err(e) => return Err(e),
                };
                let created_at = match get_bounded(&fields, "created_at", 0, u32::MAX as i128) {
                    Ok(v) => v as u32,
                    Err(e) => return Err(e),
                };
                match CatalogObject::<Id>::decode_fields(fields) {
                    Ok(catalog_object) => Ok(CatalogObjectDocument { id, account, version, created_at, catalog_object }),
                    Err(e) => Err(DecodeError::MalformedDocument(Box::new(e))),
                }
            },
            _ => Err(DecodeError::MalformedField),
        }
    }
}

} // verus!
