use vstd::prelude::*;

use crate::catalog::{
    CatalogObjectView, DocumentView, ImageView, ItemCategory, ItemMeasurmentUnits, ItemView,
    ModificationView, PriceView, VariationView,
};
use crate::codec::{
    catalog_fields, document_fields, image_wire, item_fields, lemma_parse_catalog_fields,
    lemma_parse_document_fields, lemma_parse_images, lemma_parse_item_fields,
    lemma_parse_modification_fields, lemma_parse_price_fields, lemma_parse_variation_fields,
    modification_fields, parse_catalog, parse_document, parse_image, parse_item, parse_modification,
    parse_price, parse_price_fields, parse_variation, price_fields, text_at, variation_fields,
    variation_own_fields, DecodeError, WireForm,
};
use crate::wire::{lemma_lookup_append, lookup, prefixed, WireValue};

verus! {

/// Reading back an encoded price gives the same price.
pub proof fn price_round_trip(p: PriceView)
    ensures
        parse_price(WireValue::Object(price_fields(p))) == Ok::<PriceView, DecodeError>(p),
{
    lemma_parse_price_fields(p);
}

/// Reading back an encoded image gives the same image.
pub proof fn image_round_trip(i: ImageView)
    ensures
        parse_image(image_wire(i)) == Ok::<ImageView, DecodeError>(i),
{
    lemma_parse_images(seq![i]);
    reveal_with_fuel(lookup, 2);
}

/// Reading back an encoded item gives the same item.
pub proof fn item_round_trip(v: ItemView)
    ensures
        parse_item(WireValue::Object(item_fields(v))) == Ok::<ItemView, DecodeError>(v),
{
    lemma_parse_item_fields(v);
}

/// Reading back an encoded variation, price fields flattened, gives the same variation.
pub proof fn variation_round_trip<Id: WireForm>(v: VariationView<Id::V>)
    ensures
        parse_variation::<Id>(WireValue::Object(variation_fields::<Id>(v))) == Ok::<VariationView<Id::V>, DecodeError>(v),
{
    lemma_parse_variation_fields::<Id>(v);
}

/// Reading back an encoded modification, price fields flattened, gives the same modification.
pub proof fn modification_round_trip<Id: WireForm>(m: ModificationView<Id::V>)
    ensures
        parse_modification::<Id>(WireValue::Object(modification_fields::<Id>(m))) == Ok::<ModificationView<Id::V>, DecodeError>(m),
{
    lemma_parse_modification_fields::<Id>(m);
}

/// Reading back an encoded catalog entry gives the same entry, of the same kind.
pub proof fn catalog_object_round_trip<Id: WireForm>(o: CatalogObjectView<Id::V>)
    ensures
        parse_catalog::<Id>(WireValue::Object(catalog_fields::<Id>(o))) == Ok::<CatalogObjectView<Id::V>, DecodeError>(o),
{
    lemma_parse_catalog_fields::<Id>(o);
}

/// Reading back an encoded document gives the same identity, owner, version,
/// time of creation and entry.
pub proof fn document_round_trip<Id: WireForm, Account: WireForm>(d: DocumentView<Id::V, Account::V>)
    ensures
        parse_document::<Id, Account>(WireValue::Object(document_fields::<Id, Account>(d)))
            == Ok::<DocumentView<Id::V, Account::V>, DecodeError>(d),
{
    lemma_parse_document_fields::<Id, Account>(d);
}

/// A document is written as exactly six members: `id`, `account`, `version`,
/// `created_at`, `type` and `data`.
pub proof fn document_members<Id: WireForm, Account: WireForm>(d: DocumentView<Id::V, Account::V>)
    ensures
        document_fields::<Id, Account>(d).map_values(|f: (Seq<char>, WireValue)| f.0)
            == seq!["id"@, "account"@, "version"@, "created_at"@, "type"@, "data"@],
{
    assert(document_fields::<Id, Account>(d).map_values(|f: (Seq<char>, WireValue)| f.0)
        =~= seq!["id"@, "account"@, "version"@, "created_at"@, "type"@, "data"@]);
}

/// A price whose discriminator names no known variant is rejected as such,
/// never read as a fixed price.
pub proof fn unknown_price_variant_rejected(fs: Seq<(Seq<char>, WireValue)>, t: Seq<char>)
    requires
        text_at(fs, "type"@) == Ok::<Seq<char>, DecodeError>(t),
        t != "Fixed"@,
    ensures
        parse_price_fields(fs) == Err::<PriceView, DecodeError>(DecodeError::UnknownVariant),
{
}

/// A variation's price appears at the variation's own level, each member
/// under its name with the `price_` prefix.
pub proof fn variation_price_flattened<Id: WireForm>(v: VariationView<Id::V>)
    ensures
        match v.price {
            PriceView::Fixed { amount, currency } => {
                &&& lookup(variation_fields::<Id>(v), "price_type"@) == Some(WireValue::Text("Fixed"@))
                &&& lookup(variation_fields::<Id>(v), "price_amount"@) == Some(WireValue::Float32(amount.bits))
                &&& lookup(variation_fields::<Id>(v), "price_currency"@) == Some(WireValue::Text(currency))
            },
        },
{
    let own = variation_own_fields::<Id>(v);
    let flat = prefixed("price_"@, price_fields(v.price));
    reveal_with_fuel(lookup, 9);
    reveal_strlit("price_");
    reveal_strlit("type");
    reveal_strlit("amount");
    reveal_strlit("currency");
    reveal_strlit("price_type");
    reveal_strlit("price_amount");
    reveal_strlit("price_currency");
    reveal_strlit("item_id");
    reveal_strlit("name");
    reveal_strlit("sku");
    reveal_strlit("images");
    reveal_strlit("upc");
    reveal_strlit("enabled");
    reveal_strlit("measurement_units");
    reveal_strlit("available_units");
    assert("price_type"@.len() != "item_id"@.len());
    assert("price_type"@.len() != "name"@.len());
    assert("price_type"@.len() != "sku"@.len());
    assert("price_type"@.len() != "images"@.len());
    assert("price_type"@.len() != "upc"@.len());
    assert("price_type"@.len() != "enabled"@.len());
    assert("price_type"@.len() != "measurement_units"@.len());
    assert("price_type"@.len() != "available_units"@.len());
    assert("price_amount"@.len() != "item_id"@.len());
    assert("price_amount"@.len() != "name"@.len());
    assert("price_amount"@.len() != "sku"@.len());
    assert("price_amount"@.len() != "images"@.len());
    assert("price_amount"@.len() != "upc"@.len());
    assert("price_amount"@.len() != "enabled"@.len());
    assert("price_amount"@.len() != "measurement_units"@.len());
    assert("price_amount"@.len() != "available_units"@.len());
    assert("price_currency"@.len() != "item_id"@.len());
    assert("price_currency"@.len() != "name"@.len());
    assert("price_currency"@.len() != "sku"@.len());
    assert("price_currency"@.len() != "images"@.len());
    assert("price_currency"@.len() != "upc"@.len());
    assert("price_currency"@.len() != "enabled"@.len());
    assert("price_currency"@.len() != "measurement_units"@.len());
    assert("price_currency"@.len() != "available_units"@.len());
    assert("price_"@ + "type"@ =~= "price_type"@);
    assert("price_"@ + "amount"@ =~= "price_amount"@);
    assert("price_"@ + "currency"@ =~= "price_currency"@);
    lemma_lookup_append(own, flat, "price_type"@);
    lemma_lookup_append(own, flat, "price_amount"@);
    lemma_lookup_append(own, flat, "price_currency"@);
}

/// Every measurement unit is read back from its own tag, and no other string
/// is read as a unit.
pub proof fn measurement_unit_tags(u: ItemMeasurmentUnits, tag: Seq<char>)
    ensures
        ItemMeasurmentUnits::from_tag_spec(u.tag_spec()) == Some(u),
        ItemMeasurmentUnits::from_tag_spec(tag) == Some(u) <==> tag == u.tag_spec(),
{
    u.lemma_tag_round_trip();
    ItemMeasurmentUnits::lemma_from_tag_exact(tag);
}

/// Every category is read back from its own tag, and no other string is read
/// as a category.
pub proof fn category_tags(c: ItemCategory, tag: Seq<char>)
    ensures
        ItemCategory::from_tag_spec(c.tag_spec()) == Some(c),
        ItemCategory::from_tag_spec(tag) == Some(c) <==> tag == c.tag_spec(),
{
    c.lemma_tag_round_trip();
    ItemCategory::lemma_from_tag_exact(tag);
}

} // verus!
