use merchant_catalog::catalog::{
    Amount, CatalogObject, CatalogObjectDocument, Image, Item, ItemCategory, ItemMeasurmentUnits,
    ItemModification, ItemVariation, Price,
};
use merchant_catalog::codec::DecodeError;
use merchant_catalog::wire::{Field, Wire};

fn member<'a>(w: &'a Wire, key: &str) -> Option<&'a Wire> {
    match w {
        Wire::Object(fields) => fields.iter().find(|f| f.key == key).map(|f| &f.value),
        _ => None,
    }
}

fn keys(w: &Wire) -> Vec<String> {
    match w {
        Wire::Object(fields) => fields.iter().map(|f| f.key.clone()).collect(),
        _ => Vec::new(),
    }
}

fn text(s: &str) -> Wire {
    Wire::Text(s.to_string())
}

fn field(key: &str, value: Wire) -> Field {
    Field { key: key.to_string(), value }
}

fn sample_item() -> Item {
    Item {
        category: ItemCategory::Pets,
        tags: vec!["dog".to_string(), "food".to_string()],
        name: "Kibble".to_string(),
        description: "Dry food for dogs".to_string(),
        enabled: true,
    }
}

fn usd(amount: f32) -> Price {
    Price::Fixed { amount: Amount::from_bits(amount.to_bits()), currency: "USD".to_string() }
}

fn sample_variation() -> ItemVariation<u64> {
    ItemVariation {
        item_id: 11,
        name: "Large bag".to_string(),
        sku: "KIB-L".to_string(),
        images: vec![Image { url: "https://img.example/kibble.png".to_string() }],
        upc: Some("0123456789".to_string()),
        enabled: true,
        measurement_units: ItemMeasurmentUnits::Weight,
        available_units: 25,
        price: usd(9.99),
    }
}

const UNITS: [(ItemMeasurmentUnits, &str); 8] = [
    (ItemMeasurmentUnits::Time, "Time"),
    (ItemMeasurmentUnits::Area, "Area"),
    (ItemMeasurmentUnits::Custom, "Custom"),
    (ItemMeasurmentUnits::Generic, "Generic"),
    (ItemMeasurmentUnits::Units, "Units"),
    (ItemMeasurmentUnits::Length, "Length"),
    (ItemMeasurmentUnits::Volume, "Volume"),
    (ItemMeasurmentUnits::Weight, "Weight"),
];

const CATEGORIES: [(ItemCategory, &str); 19] = [
    (ItemCategory::Shop, "Shop"),
    (ItemCategory::Restaurant, "Restaurant"),
    (ItemCategory::Liquor, "Liquor"),
    (ItemCategory::Beuty, "Beuty"),
    (ItemCategory::FashionAndAccesories, "FashionAndAccesories"),
    (ItemCategory::Technology, "Technology"),
    (ItemCategory::Home, "Home"),
    (ItemCategory::FarmacyAndHelth, "FarmacyAndHelth"),
    (ItemCategory::VehiclesAndAccesories, "VehiclesAndAccesories"),
    (ItemCategory::Sports, "Sports"),
    (ItemCategory::Pets, "Pets"),
    (ItemCategory::ArtAndCrafts, "ArtAndCrafts"),
    (ItemCategory::ToolsAndGarden, "ToolsAndGarden"),
    (ItemCategory::BabysAndKids, "BabysAndKids"),
    (ItemCategory::Entertainment, "Entertainment"),
    (ItemCategory::ToysAndGames, "ToysAndGames"),
    (ItemCategory::BusinessesAndSupplies, "BusinessesAndSupplies"),
    (ItemCategory::SexShop, "SexShop"),
    (ItemCategory::PaperWork, "PaperWork"),
];

#[test]
fn measurement_units_use_their_exact_tags() {
    for (u, tag) in UNITS {
        assert_eq!(u.tag(), tag);
        assert_eq!(ItemMeasurmentUnits::from_tag(tag), Some(u));
    }
}

#[test]
fn categories_use_their_exact_tags() {
    for (c, tag) in CATEGORIES {
        assert_eq!(c.tag(), tag);
        assert_eq!(ItemCategory::from_tag(tag), Some(c));
    }
}

#[test]
fn unrecognized_tags_are_rejected() {
    assert_eq!(ItemCategory::from_tag("Beauty"), None);
    assert_eq!(ItemCategory::from_tag("shop"), None);
    assert_eq!(ItemCategory::from_tag(""), None);
    assert_eq!(ItemMeasurmentUnits::from_tag("Weights"), None);
    let mut w = sample_item().encode();
    if let Wire::Object(fields) = &mut w {
        fields[0].value = text("Bakery");
    }
    assert_eq!(Item::decode(w), Err(DecodeError::UnknownVariant));
}

#[test]
fn every_category_round_trips_inside_an_item() {
    for (c, tag) in CATEGORIES {
        let mut it = sample_item();
        it.category = c;
        let w = it.encode();
        assert_eq!(member(&w, "category"), Some(&text(tag)));
        assert_eq!(Item::decode(w), Ok(it));
    }
}

#[test]
fn every_unit_round_trips_inside_a_variation() {
    for (u, tag) in UNITS {
        let mut v = sample_variation();
        v.measurement_units = u;
        let w = v.encode();
        assert_eq!(member(&w, "measurement_units"), Some(&text(tag)));
        assert_eq!(ItemVariation::<u64>::decode(w), Ok(v));
    }
}

#[test]
fn item_round_trip() {
    let it = sample_item();
    let w = it.encode();
    assert_eq!(keys(&w), vec!["category", "tags", "name", "description", "enabled"]);
    assert_eq!(member(&w, "tags"), Some(&Wire::List(vec![text("dog"), text("food")])));
    assert_eq!(Item::decode(w), Ok(it));
}

#[test]
fn item_round_trip_with_empty_values() {
    let it = Item {
        category: ItemCategory::Shop,
        tags: Vec::new(),
        name: String::new(),
        description: String::new(),
        enabled: false,
    };
    assert_eq!(Item::decode(it.encode()), Ok(it));
}

#[test]
fn price_round_trip() {
    let p = usd(12.5);
    let w = p.encode();
    assert_eq!(keys(&w), vec!["type", "amount", "currency"]);
    assert_eq!(member(&w, "type"), Some(&text("Fixed")));
    assert_eq!(member(&w, "amount"), Some(&Wire::Float32(12.5f32.to_bits())));
    assert_eq!(Price::decode(w), Ok(p));
    let free = Price::Fixed { amount: Amount::from_bits(0.0f32.to_bits()), currency: String::new() };
    assert_eq!(Price::decode(free.encode()), Ok(free));
    let negative = usd(-3.25);
    assert_eq!(Price::decode(negative.encode()), Ok(negative));
}

#[test]
fn image_round_trip() {
    let img = Image { url: "https://img.example/a.png".to_string() };
    let w = img.encode();
    assert_eq!(w, Wire::Object(vec![field("url", text("https://img.example/a.png"))]));
    assert_eq!(Image::decode(w), Ok(img));
}

#[test]
fn variation_round_trip() {
    let v = sample_variation();
    assert_eq!(ItemVariation::<u64>::decode(v.encode()), Ok(v));
}

#[test]
fn variation_round_trip_with_boundary_values() {
    let mut v = sample_variation();
    v.upc = None;
    v.available_units = 0;
    v.images = Vec::new();
    v.name = String::new();
    v.sku = String::new();
    let w = v.encode();
    assert_eq!(member(&w, "upc"), Some(&Wire::Null));
    assert_eq!(ItemVariation::<u64>::decode(w), Ok(v.clone()));
    v.available_units = -40;
    assert_eq!(ItemVariation::<u64>::decode(v.encode()), Ok(v.clone()));
    v.available_units = i32::MIN;
    assert_eq!(ItemVariation::<u64>::decode(v.encode()), Ok(v));
}

#[test]
fn variation_with_text_identifier_round_trips() {
    let v = ItemVariation {
        item_id: "item-7".to_string(),
        name: "Small".to_string(),
        sku: "S".to_string(),
        images: Vec::new(),
        upc: None,
        enabled: false,
        measurement_units: ItemMeasurmentUnits::Units,
        available_units: 3,
        price: usd(1.0),
    };
    let w = v.encode();
    assert_eq!(member(&w, "item_id"), Some(&text("item-7")));
    assert_eq!(ItemVariation::<String>::decode(w), Ok(v));
}

#[test]
fn missing_upc_reads_as_absent() {
    let v = sample_variation();
    let mut w = v.encode();
    if let Wire::Object(fields) = &mut w {
        fields.retain(|f| f.key != "upc");
    }
    let back = ItemVariation::<u64>::decode(w).unwrap();
    assert_eq!(back.upc, None);
}

#[test]
fn modification_round_trip() {
    let m = ItemModification {
        item_id: 11u64,
        name: "Extra cheese".to_string(),
        images: vec![Image { url: "u1".to_string() }, Image { url: "u2".to_string() }],
        price: usd(0.5),
        enabled: true,
    };
    let w = m.encode();
    assert_eq!(
        keys(&w),
        vec!["item_id", "name", "images", "enabled", "price_type", "price_amount", "price_currency"]
    );
    assert_eq!(ItemModification::<u64>::decode(w), Ok(m));
}

#[test]
fn price_is_flattened_with_prefix() {
    let v = sample_variation();
    let w = v.encode();
    assert_eq!(member(&w, "price_type"), Some(&text("Fixed")));
    assert_eq!(member(&w, "price_amount"), Some(&Wire::Float32(9.99f32.to_bits())));
    assert_eq!(member(&w, "price_currency"), Some(&text("USD")));
    assert_eq!(member(&w, "price"), None);
    assert_eq!(member(&w, "type"), None);
    assert_eq!(ItemVariation::<u64>::decode(w), Ok(v));
}

#[test]
fn flat_record_decodes_to_variation() {
    let w = Wire::Object(vec![
        field("price_currency", text("USD")),
        field("item_id", Wire::Int(11)),
        field("name", text("Large bag")),
        field("sku", text("KIB-L")),
        field("images", Wire::List(vec![Wire::Object(vec![field("url", text("https://img.example/kibble.png"))])])),
        field("upc", text("0123456789")),
        field("price_type", text("Fixed")),
        field("enabled", Wire::Bool(true)),
        field("measurement_units", text("Weight")),
        field("available_units", Wire::Int(25)),
        field("price_amount", Wire::Float32(9.99f32.to_bits())),
    ]);
    assert_eq!(ItemVariation::<u64>::decode(w), Ok(sample_variation()));
}

#[test]
fn unknown_price_variant_is_rejected() {
    let mut w = sample_variation().encode();
    if let Wire::Object(fields) = &mut w {
        for f in fields.iter_mut() {
            if f.key == "price_type" {
                f.value = text("Tiered");
            }
        }
    }
    assert_eq!(ItemVariation::<u64>::decode(w), Err(DecodeError::UnknownVariant));
    let p = Wire::Object(vec![field("type", text("Tiered")), field("tiers", Wire::List(Vec::new()))]);
    assert_eq!(Price::decode(p), Err(DecodeError::UnknownVariant));
}

#[test]
fn stray_price_field_is_malformed() {
    let mut w = sample_variation().encode();
    if let Wire::Object(fields) = &mut w {
        fields.push(field("price_discount", Wire::Int(5)));
    }
    assert_eq!(ItemVariation::<u64>::decode(w), Err(DecodeError::MalformedField));
}

#[test]
fn missing_and_malformed_fields_are_reported() {
    let mut w = sample_item().encode();
    if let Wire::Object(fields) = &mut w {
        fields.retain(|f| f.key != "name");
    }
    assert_eq!(Item::decode(w), Err(DecodeError::MissingField));
    let mut w = sample_item().encode();
    if let Wire::Object(fields) = &mut w {
        fields[4].value = text("yes");
    }
    assert_eq!(Item::decode(w), Err(DecodeError::MalformedField));
    assert_eq!(Item::decode(Wire::Null), Err(DecodeError::MalformedField));
    let mut w = sample_variation().encode();
    if let Wire::Object(fields) = &mut w {
        fields.retain(|f| f.key != "price_amount");
    }
    assert_eq!(ItemVariation::<u64>::decode(w), Err(DecodeError::MissingField));
    let mut w = sample_variation().encode();
    if let Wire::Object(fields) = &mut w {
        fields[7].value = Wire::Int(i32::MAX as i128 + 1);
    }
    assert_eq!(ItemVariation::<u64>::decode(w), Err(DecodeError::MalformedField));
    let mut w = sample_variation().encode();
    if let Wire::Object(fields) = &mut w {
        fields[0].value = Wire::Int(-1);
    }
    assert_eq!(ItemVariation::<u64>::decode(w), Err(DecodeError::MalformedField));
}

#[test]
fn envelope_keeps_its_tag() {
    let it = sample_item();
    let obj: CatalogObject<u64> = CatalogObject::from(it.clone());
    assert_eq!(obj.item(), Some(&it));
    assert!(obj.variation().is_none());
    assert!(obj.modification().is_none());
    let w = obj.encode();
    assert_eq!(keys(&w), vec!["type", "data"]);
    assert_eq!(member(&w, "type"), Some(&text("Item")));
    assert_eq!(member(&w, "data"), Some(&it.encode()));
    assert_eq!(CatalogObject::<u64>::decode(w), Ok(obj));
}

#[test]
fn envelope_variants_round_trip() {
    let v: CatalogObject<u64> = CatalogObject::from(sample_variation());
    assert!(v.item().is_none());
    assert_eq!(v.variation(), Some(&sample_variation()));
    let w = v.encode();
    assert_eq!(member(&w, "type"), Some(&text("Variation")));
    assert_eq!(CatalogObject::<u64>::decode(w), Ok(v));
    let m = ItemModification { item_id: 3u64, name: "Gift wrap".to_string(), images: Vec::new(), price: usd(2.0), enabled: false };
    let obj: CatalogObject<u64> = CatalogObject::from(m);
    assert!(obj.modification().is_some());
    let w = obj.encode();
    assert_eq!(member(&w, "type"), Some(&text("Modification")));
    assert_eq!(CatalogObject::<u64>::decode(w), Ok(obj));
}

#[test]
fn envelope_with_unknown_tag_is_rejected() {
    let w = Wire::Object(vec![field("type", text("Bundle")), field("data", Wire::Object(Vec::new()))]);
    assert_eq!(CatalogObject::<u64>::decode(w), Err(DecodeError::UnknownVariant));
    let w = Wire::Object(vec![field("type", text("Item"))]);
    assert_eq!(CatalogObject::<u64>::decode(w), Err(DecodeError::MissingField));
}

#[test]
fn document_composition() {
    let it = sample_item();
    let doc: CatalogObjectDocument<u64, u64> = CatalogObjectDocument {
        id: 42,
        account: 7,
        version: 1,
        created_at: 1700000000,
        catalog_object: CatalogObject::from(it.clone()),
    };
    let w = doc.encode();
    assert_eq!(keys(&w), vec!["id", "account", "version", "created_at", "type", "data"]);
    assert_eq!(member(&w, "id"), Some(&Wire::Int(42)));
    assert_eq!(member(&w, "account"), Some(&Wire::Int(7)));
    assert_eq!(member(&w, "version"), Some(&Wire::Int(1)));
    assert_eq!(member(&w, "created_at"), Some(&Wire::Int(1700000000)));
    assert_eq!(member(&w, "type"), Some(&text("Item")));
    assert_eq!(member(&w, "data"), Some(&it.encode()));
    let back = CatalogObjectDocument::<u64, u64>::decode(w).unwrap();
    assert_eq!(back.id, 42);
    assert_eq!(back.account, 7);
    assert_eq!(back.version, 1);
    assert_eq!(back.created_at, 1700000000);
    assert_eq!(back.catalog_object.item(), Some(&it));
    assert_eq!(back, doc);
}

#[test]
fn document_round_trip_at_field_limits() {
    let doc: CatalogObjectDocument<String, i64> = CatalogObjectDocument {
        id: "doc-1".to_string(),
        account: -9,
        version: u16::MAX,
        created_at: u32::MAX,
        catalog_object: CatalogObject::from(ItemModification {
            item_id: "item-1".to_string(),
            name: "Add-on".to_string(),
            images: Vec::new(),
            price: usd(0.0),
            enabled: true,
        }),
    };
    assert_eq!(CatalogObjectDocument::<String, i64>::decode(doc.encode()), Ok(doc));
}

#[test]
fn document_errors() {
    let doc: CatalogObjectDocument<u64, u64> = CatalogObjectDocument {
        id: 1,
        account: 2,
        version: 3,
        created_at: 4,
        catalog_object: CatalogObject::from(sample_item()),
    };
    let mut w = doc.encode();
    if let Wire::Object(fields) = &mut w {
        fields[4].value = text("Bundle");
    }
    assert_eq!(
        CatalogObjectDocument::<u64, u64>::decode(w),
        Err(DecodeError::MalformedDocument(Box::new(DecodeError::UnknownVariant)))
    );
    let mut w = doc.encode();
    if let Wire::Object(fields) = &mut w {
        fields.retain(|f| f.key != "data");
    }
    assert_eq!(
        CatalogObjectDocument::<u64, u64>::decode(w),
        Err(DecodeError::MalformedDocument(Box::new(DecodeError::MissingField)))
    );
    let mut w = doc.encode();
    if let Wire::Object(fields) = &mut w {
        fields[2].value = Wire::Int(70000);
    }
    assert_eq!(CatalogObjectDocument::<u64, u64>::decode(w), Err(DecodeError::MalformedField));
    let mut w = doc.encode();
    if let Wire::Object(fields) = &mut w {
        fields.retain(|f| f.key != "id");
    }
    assert_eq!(CatalogObjectDocument::<u64, u64>::decode(w), Err(DecodeError::MissingField));
}
