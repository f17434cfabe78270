use vstd::prelude::*;

use crate::wire::same_text;

verus! {

/// The unit in which a variation is measured and counted.
#[derive(Clone, Copy, Debug, PartialEq, Eq, Structural)]
pub enum ItemMeasurmentUnits {
    Time,
    Area,
    Custom,
    Generic,
    Units,
    Length,
    Volume,
    Weight,
}

impl ItemMeasurmentUnits {
    /// The name under which this member is written on the wire.
    pub open spec fn tag_spec(self) -> Seq<char> {
        match self {
            ItemMeasurmentUnits::Time => "Time"@,
            ItemMeasurmentUnits::Area => "Area"@,
            ItemMeasurmentUnits::Custom => "Custom"@,
            ItemMeasurmentUnits::Generic => "Generic"@,
            ItemMeasurmentUnits::Units => "Units"@,
            ItemMeasurmentUnits::Length => "Length"@,
            ItemMeasurmentUnits::Volume => "Volume"@,
            ItemMeasurmentUnits::Weight => "Weight"@,
        }
    }

    /// The member written on the wire as `tag`, if any.
    pub open spec fn from_tag_spec(tag: Seq<char>) -> Option<ItemMeasurmentUnits> {
        if tag == "Time"@ {
            Some(ItemMeasurmentUnits::Time)
        } else if tag == "Area"@ {
            Some(ItemMeasurmentUnits::Area)
        } else if tag == "Custom"@ {
            Some(ItemMeasurmentUnits::Custom)
        } else if tag == "Generic"@ {
            Some(ItemMeasurmentUnits::Generic)
        } else if tag == "Units"@ {
            Some(ItemMeasurmentUnits::Units)
        } else if tag == "Length"@ {
            Some(ItemMeasurmentUnits::Length)
        } else if tag == "Volume"@ {
            Some(ItemMeasurmentUnits::Volume)
        } else if tag == "Weight"@ {
            Some(ItemMeasurmentUnits::Weight)
        } else {
            None
        }
    }

    pub fn tag(&self) -> (r: &'static str)
        ensures
            r@ == self.tag_spec(),
    {
        match self {
            ItemMeasurmentUnits::Time => "Time",
            ItemMeasurmentUnits::Area => "Area",
            ItemMeasurmentUnits::Custom => "Custom",
            ItemMeasurmentUnits::Generic => "Generic",
            ItemMeasurmentUnits::Units => "Units",
            ItemMeasurmentUnits::Length => "Length",
            ItemMeasurmentUnits::Volume => "Volume",
            ItemMeasurmentUnits::Weight => "Weight",
        }
    }

    pub fn from_tag(tag: &str) -> (r: Option<ItemMeasurmentUnits>)
        ensures
            r == Self::from_tag_spec(tag@),
    {
        if same_text(tag, "Time") {
            return Some(ItemMeasurmentUnits::Time);
        }
        if same_text(tag, "Area") {
            return Some(ItemMeasurmentUnits::Area);
        }
        if same_text(tag, "Custom") {
            return Some(ItemMeasurmentUnits::Custom);
        }
        if same_text(tag, "Generic") {
            return Some(ItemMeasurmentUnits::Generic);
        }
        if same_text(tag, "Units") {
            return Some(ItemMeasurmentUnits::Units);
        }
        if same_text(tag, "Length") {
            return Some(ItemMeasurmentUnits::Length);
        }
        if same_text(tag, "Volume") {
            return Some(ItemMeasurmentUnits::Volume);
        }
        if same_text(tag, "Weight") {
            return Some(ItemMeasurmentUnits::Weight);
        }
        None
    }

    /// A tag is read as a member only when it is exactly that member's tag; any
    /// other string is read as no member at all.
    pub proof fn lemma_from_tag_exact(tag: Seq<char>)
        ensures
            match Self::from_tag_spec(tag) {
                Some(m) => m.tag_spec() == tag,
                None => forall|m: ItemMeasurmentUnits| #[trigger] m.tag_spec() != tag,
            },
    {
        if Self::from_tag_spec(tag) is None {
            assert forall|m: ItemMeasurmentUnits| #[trigger] m.tag_spec() != tag by {
                if m.tag_spec() == tag {
                    m.lemma_tag_round_trip();
                }
            }
        }
    }

    /// Every member is read back from its own tag.
    pub proof fn lemma_tag_round_trip(self)
        ensures
            Self::from_tag_spec(self.tag_spec()) == Some(self),
    {
        match self {
            ItemMeasurmentUnits::Time => {
                reveal_strlit("Time");
            },
            ItemMeasurmentUnits::Area => {
                reveal_strlit("Area");
                reveal_strlit("Time");
                assert("Area"@[0] != "Time"@[0]);
            },
            ItemMeasurmentUnits::Custom => {
                reveal_strlit("Custom");
                reveal_strlit("Time");
                reveal_strlit("Area");
                assert("Custom"@.len() != "Time"@.len());
                assert("Custom"@.len() != "Area"@.len());
            },
            ItemMeasurmentUnits::Generic => {
                reveal_strlit("Generic");
                reveal_strlit("Time");
                reveal_strlit("Area");
                reveal_strlit("Custom");
                assert("Generic"@.len() != "Time"@.len());
                assert("Generic"@.len() != "Area"@.len());
                assert("Generic"@.len() != "Custom"@.len());
            },
            ItemMeasurmentUnits::Units => {
                reveal_strlit("Units");
                reveal_strlit("Time");
                reveal_strlit("Area");
                reveal_strlit("Custom");
                reveal_strlit("Generic");
                assert("Units"@.len() != "Time"@.len());
                assert("Units"@.len() != "Area"@.len());
                assert("Units"@.len() != "Custom"@.len());
                assert("Units"@.len() != "Generic"@.len());
            },
            ItemMeasurmentUnits::Length => {
                reveal_strlit("Length");
                reveal_strlit("Time");
                reveal_strlit("Area");
                reveal_strlit("Custom");
                reveal_strlit("Generic");
                reveal_strlit("Units");
                assert("Length"@.len() != "Time"@.len());
                assert("Length"@.len() != "Area"@.len());
                assert("Length"@[0] != "Custom"@[0]);
                assert("Length"@.len() != "Generic"@.len());
                assert("Length"@.len() != "Units"@.len());
            },
            ItemMeasurmentUnits::Volume => {
                reveal_strlit("Volume");
                reveal_strlit("Time");
                reveal_strlit("Area");
                reveal_strlit("Custom");
                reveal_strlit("Generic");
                reveal_strlit("Units");
                reveal_strlit("Length");
                assert("Volume"@.len() != "Time"@.len());
                assert("Volume"@.len() != "Area"@.len());
                assert("Volume"@[0] != "Custom"@[0]);
                assert("Volume"@.len() != "Generic"@.len());
                assert("Volume"@.len() != "Units"@.len());
                assert("Volume"@[0] != "Length"@[0]);
            },
            ItemMeasurmentUnits::Weight => {
                reveal_strlit("Weight");
                reveal_strlit("Time");
                reveal_strlit("Area");
                reveal_strlit("Custom");
                reveal_strlit("Generic");
                reveal_strlit("Units");
                reveal_strlit("Length");
                reveal_strlit("Volume");
                assert("Weight"@.len() != "Time"@.len());
                assert("Weight"@.len() != "Area"@.len());
                assert("Weight"@[0] != "Custom"@[0]);
                assert("Weight"@.len() != "Generic"@.len());
                assert("Weight"@.len() != "Units"@.len());
                assert("Weight"@[0] != "Length"@[0]);
                assert("Weight"@[0] != "Volume"@[0]);
            },
        }
    }
}

/// The merchant business category of an item. The member names are part of the
/// stored format and are kept exactly as they have always been written.
#[derive(Clone, Copy, Debug, PartialEq, Eq, Structural)]
pub enum ItemCategory {
    Shop,
    Restaurant,
    Liquor,
    Beuty,
    FashionAndAccesories,
    Technology,
    Home,
    FarmacyAndHelth,
    VehiclesAndAccesories,
    Sports,
    Pets,
    ArtAndCrafts,
    ToolsAndGarden,
    BabysAndKids,
    Entertainment,
    ToysAndGames,
    BusinessesAndSupplies,
    SexShop,
    PaperWork,
}

impl ItemCategory {
    /// The name under which this member is written on the wire.
    pub open spec fn tag_spec(self) -> Seq<char> {
        match self {
            ItemCategory::Shop => "Shop"@,
            ItemCategory::Restaurant => "Restaurant"@,
            ItemCategory::Liquor => "Liquor"@,
            ItemCategory::Beuty => "Beuty"@,
            ItemCategory::FashionAndAccesories => "FashionAndAccesories"@,
            ItemCategory::Technology => "Technology"@,
            ItemCategory::Home => "Home"@,
            ItemCategory::FarmacyAndHelth => "FarmacyAndHelth"@,
            ItemCategory::VehiclesAndAccesories => "VehiclesAndAccesories"@,
            ItemCategory::Sports => "Sports"@,
            ItemCategory::Pets => "Pets"@,
            ItemCategory::ArtAndCrafts => "ArtAndCrafts"@,
            ItemCategory::ToolsAndGarden => "ToolsAndGarden"@,
            ItemCategory::BabysAndKids => "BabysAndKids"@,
            ItemCategory::Entertainment => "Entertainment"@,
            ItemCategory::ToysAndGames => "ToysAndGames"@,
            ItemCategory::BusinessesAndSupplies => "BusinessesAndSupplies"@,
            ItemCategory::SexShop => "SexShop"@,
            ItemCategory::PaperWork => "PaperWork"@,
        }
    }

    /// The member written on the wire as `tag`, if any.
    pub open spec fn from_tag_spec(tag: Seq<char>) -> Option<ItemCategory> {
        if tag == "Shop"@ {
            Some(ItemCategory::Shop)
        } else if tag == "Restaurant"@ {
            Some(ItemCategory::Restaurant)
        } else if tag == "Liquor"@ {
            Some(ItemCategory::Liquor)
        } else if tag == "Beuty"@ {
            Some(ItemCategory::Beuty)
        } else if tag == "FashionAndAccesories"@ {
            Some(ItemCategory::FashionAndAccesories)
        } else if tag == "Technology"@ {
            Some(ItemCategory::Technology)
        } else if tag == "Home"@ {
            Some(ItemCategory::Home)
        } else if tag == "FarmacyAndHelth"@ {
            Some(ItemCategory::FarmacyAndHelth)
        } else if tag == "VehiclesAndAccesories"@ {
            Some(ItemCategory::VehiclesAndAccesories)
        } else if tag == "Sports"@ {
            Some(ItemCategory::Sports)
        } else if tag == "Pets"@ {
            Some(ItemCategory::Pets)
        } else if tag == "ArtAndCrafts"@ {
            Some(ItemCategory::ArtAndCrafts)
        } else if tag == "ToolsAndGarden"@ {
            Some(ItemCategory::ToolsAndGarden)
        } else if tag == "BabysAndKids"@ {
            Some(ItemCategory::BabysAndKids)
        } else if tag == "Entertainment"@ {
            Some(ItemCategory::Entertainment)
        } else if tag == "ToysAndGames"@ {
            Some(ItemCategory::ToysAndGames)
        } else if tag == "BusinessesAndSupplies"@ {
            Some(ItemCategory::BusinessesAndSupplies)
        } else if tag == "SexShop"@ {
            Some(ItemCategory::SexShop)
        } else if tag == "PaperWork"@ {
            Some(ItemCategory::PaperWork)
        } else {
            None
        }
    }

    pub fn tag(&self) -> (r: &'static str)
        ensures
            r@ == self.tag_spec(),
    {
        match self {
            ItemCategory::Shop => "Shop",
            ItemCategory::Restaurant => "Restaurant",
            ItemCategory::Liquor => "Liquor",
            ItemCategory::Beuty => "Beuty",
            ItemCategory::FashionAndAccesories => "FashionAndAccesories",
            ItemCategory::Technology => "Technology",
            ItemCategory::Home => "Home",
            ItemCategory::FarmacyAndHelth => "FarmacyAndHelth",
            ItemCategory::VehiclesAndAccesories => "VehiclesAndAccesories",
            ItemCategory::Sports => "Sports",
            ItemCategory::Pets => "Pets",
            ItemCategory::ArtAndCrafts => "ArtAndCrafts",
            ItemCategory::ToolsAndGarden => "ToolsAndGarden",
            ItemCategory::BabysAndKids => "BabysAndKids",
            ItemCategory::Entertainment => "Entertainment",
            ItemCategory::ToysAndGames => "ToysAndGames",
            ItemCategory::BusinessesAndSupplies => "BusinessesAndSupplies",
            ItemCategory::SexShop => "SexShop",
            ItemCategory::PaperWork => "PaperWork",
        }
    }

    pub fn from_tag(tag: &str) -> (r: Option<ItemCategory>)
        ensures
            r == Self::from_tag_spec(tag@),
    {
        if same_text(tag, "Shop") {
            return Some(ItemCategory::Shop);
        }
        if same_text(tag, "Restaurant") {
            return Some(ItemCategory::Restaurant);
        }
        if same_text(tag, "Liquor") {
            return Some(ItemCategory::Liquor);
        }
        if same_text(tag, "Beuty") {
            return Some(ItemCategory::Beuty);
        }
        if same_text(tag, "FashionAndAccesories") {
            return Some(ItemCategory::FashionAndAccesories);
        }
        if same_text(tag, "Technology") {
            return Some(ItemCategory::Technology);
        }
        if same_text(tag, "Home") {
            return Some(ItemCategory::Home);
        }
        if same_text(tag, "FarmacyAndHelth") {
            return Some(ItemCategory::FarmacyAndHelth);
        }
        if same_text(tag, "VehiclesAndAccesories") {
            return Some(ItemCategory::VehiclesAndAccesories);
        }
        if same_text(tag, "Sports") {
            return Some(ItemCategory::Sports);
        }
        if same_text(tag, "Pets") {
            return Some(ItemCategory::Pets);
        }
        if same_text(tag, "ArtAndCrafts") {
            return Some(ItemCategory::ArtAndCrafts);
        }
        if same_text(tag, "ToolsAndGarden") {
            return Some(ItemCategory::ToolsAndGarden);
        }
        if same_text(tag, "BabysAndKids") {
            return Some(ItemCategory::BabysAndKids);
        }
        if same_text(tag, "Entertainment") {
            return Some(ItemCategory::Entertainment);
        }
        if same_text(tag, "ToysAndGames") {
            return Some(ItemCategory::ToysAndGames);
        }
        if same_text(tag, "BusinessesAndSupplies") {
            return Some(ItemCategory::BusinessesAndSupplies);
        }
        if same_text(tag, "SexShop") {
            return Some(ItemCategory::SexShop);
        }
        if same_text(tag, "PaperWork") {
            return Some(ItemCategory::PaperWork);
        }
        None
    }

    /// A tag is read as a member only when it is exactly that member's tag; any
    /// other string is read as no member at all.
    pub proof fn lemma_from_tag_exact(tag: Seq<char>)
        ensures
            match Self::from_tag_spec(tag) {
                Some(m) => m.tag_spec() == tag,
                None => forall|m: ItemCategory| #[trigger] m.tag_spec() != tag,
            },
    {
        if Self::from_tag_spec(tag) is None {
            assert forall|m: ItemCategory| #[trigger] m.tag_spec() != tag by {
                if m.tag_spec() == tag {
                    m.lemma_tag_round_trip();
                }
            }
        }
    }

    /// Every member is read back from its own tag.
    pub proof fn lemma_tag_round_trip(self)
        ensures
            Self::from_tag_spec(self.tag_spec()) == Some(self),
    {
        match self {
            ItemCategory::Shop => {
                reveal_strlit("Shop");
            },
            ItemCategory::Restaurant => {
                reveal_strlit("Restaurant");
                reveal_strlit("Shop");
                assert("Restaurant"@.len() != "Shop"@.len());
            },
            ItemCategory::Liquor => {
                reveal_strlit("Liquor");
                reveal_strlit("Shop");
                reveal_strlit("Restaurant");
                assert("Liquor"@.len() != "Shop"@.len());
                assert("Liquor"@.len() != "Restaurant"@.len());
            },
            ItemCategory::Beuty => {
                reveal_strlit("Beuty");
                reveal_strlit("Shop");
                reveal_strlit("Restaurant");
                reveal_strlit("Liquor");
                assert("Beuty"@.len() != "Shop"@.len());
                assert("Beuty"@.len() != "Restaurant"@.len());
                assert("Beuty"@.len() != "Liquor"@.len());
            },
            ItemCategory::FashionAndAccesories => {
                reveal_strlit("FashionAndAccesories");
                reveal_strlit("Shop");
                reveal_strlit("Restaurant");
                reveal_strlit("Liquor");
                reveal_strlit("Beuty");
                assert("FashionAndAccesories"@.len() != "Shop"@.len());
                assert("FashionAndAccesories"@.len() != "Restaurant"@.len());
                assert("FashionAndAccesories"@.len() != "Liquor"@.len());
                assert("FashionAndAccesories"@.len() != "Beuty"@.len());
            },
            ItemCategory::Technology => {
                reveal_strlit("Technology");
                reveal_strlit("Shop");
                reveal_strlit("Restaurant");
                reveal_strlit("Liquor");
                reveal_strlit("Beuty");
                reveal_strlit("FashionAndAccesories");
                assert("Technology"@.len() != "Shop"@.len());
                assert("Technology"@[0] != "Restaurant"@[0]);
                assert("Technology"@.len() != "Liquor"@.len());
                assert("Technology"@.len() != "Beuty"@.len());
                assert("Technology"@.len() != "FashionAndAccesories"@.len());
            },
            ItemCategory::Home => {
                reveal_strlit("Home");
                reveal_strlit("Shop");
                reveal_strlit("Restaurant");
                reveal_strlit("Liquor");
                reveal_strlit("Beuty");
                reveal_strlit("FashionAndAccesories");
                reveal_strlit("Technology");
                assert("Home"@[0] != "Shop"@[0]);
                assert("Home"@.len() != "Restaurant"@.len());
                assert("Home"@.len() != "Liquor"@.len());
                assert("Home"@.len() != "Beuty"@.len());
                assert("Home"@.len() != "FashionAndAccesories"@.len());
                assert("Home"@.len() != "Technology"@.len());
            },
            ItemCategory::FarmacyAndHelth => {
                reveal_strlit("FarmacyAndHelth");
                reveal_strlit("Shop");
                reveal_strlit("Restaurant");
                reveal_strlit("Liquor");
                reveal_strlit("Beuty");
                reveal_strlit("FashionAndAccesories");
                reveal_strlit("Technology");
                reveal_strlit("Home");
                assert("FarmacyAndHelth"@.len() != "Shop"@.len());
                assert("FarmacyAndHelth"@.len() != "Restaurant"@.len());
                assert("FarmacyAndHelth"@.len() != "Liquor"@.len());
                assert("FarmacyAndHelth"@.len() != "Beuty"@.len());
                assert("FarmacyAndHelth"@.len() != "FashionAndAccesories"@.len());
                assert("FarmacyAndHelth"@.len() != "Technology"@.len());
                assert("FarmacyAndHelth"@.len() != "Home"@.len());
            },
            ItemCategory::VehiclesAndAccesories => {
                reveal_strlit("VehiclesAndAccesories");
                reveal_strlit("Shop");
                reveal_strlit("Restaurant");
                reveal_strlit("Liquor");
                reveal_strlit("Beuty");
                reveal_strlit("FashionAndAccesories");
                reveal_strlit("Technology");
                reveal_strlit("Home");
                reveal_strlit("FarmacyAndHelth");
                assert("VehiclesAndAccesories"@.len() != "Shop"@.len());
                assert("VehiclesAndAccesories"@.len() != "Restaurant"@.len());
                assert("VehiclesAndAccesories"@.len() != "Liquor"@.len());
                assert("VehiclesAndAccesories"@.len() != "Beuty"@.len());
                assert("VehiclesAndAccesories"@.len() != "FashionAndAccesories"@.len());
                assert("VehiclesAndAccesories"@.len() != "Technology"@.len());
                assert("VehiclesAndAccesories"@.len() != "Home"@.len());
                assert("VehiclesAndAccesories"@.len() != "FarmacyAndHelth"@.len());
            },
            ItemCategory::Sports => {
                reveal_strlit("Sports");
                reveal_strlit("Shop");
                reveal_strlit("Restaurant");
                reveal_strlit("Liquor");
                reveal_strlit("Beuty");
                reveal_strlit("FashionAndAccesories");
                reveal_strlit("Technology");
                reveal_strlit("Home");
                reveal_strlit("FarmacyAndHelth");
                reveal_strlit("VehiclesAndAccesories");
                assert("Sports"@.len() != "Shop"@.len());
                assert("Sports"@.len() != "Restaurant"@.len());
                assert("Sports"@[0] != "Liquor"@[0]);
                assert("Sports"@.len() != "Beuty"@.len());
                assert("Sports"@.len() != "FashionAndAccesories"@.len());
                assert("Sports"@.len() != "Technology"@.len());
                assert("Sports"@.len() != "Home"@.len());
                assert("Sports"@.len() != "FarmacyAndHelth"@.len());
                assert("Sports"@.len() != "VehiclesAndAccesories"@.len());
            },
            ItemCategory::Pets => {
                reveal_strlit("Pets");
                reveal_strlit("Shop");
                reveal_strlit("Restaurant");
                reveal_strlit("Liquor");
                reveal_strlit("Beuty");
                reveal_strlit("FashionAndAccesories");
                reveal_strlit("Technology");
                reveal_strlit("Home");
                reveal_strlit("FarmacyAndHelth");
                reveal_strlit("VehiclesAndAccesories");
                reveal_strlit("Sports");
                assert("Pets"@[0] != "Shop"@[0]);
                assert("Pets"@.len() != "Restaurant"@.len());
                assert("Pets"@.len() != "Liquor"@.len());
                assert("Pets"@.len() != "Beuty"@.len());
                assert("Pets"@.len() != "FashionAndAccesories"@.len());
                assert("Pets"@.len() != "Technology"@.len());
                assert("Pets"@[0] != "Home"@[0]);
                assert("Pets"@.len() != "FarmacyAndHelth"@.len());
                assert("Pets"@.len() != "VehiclesAndAccesories"@.len());
                assert("Pets"@.len() != "Sports"@.len());
            },
            ItemCategory::ArtAndCrafts => {
                reveal_strlit("ArtAndCrafts");
                reveal_strlit("Shop");
                reveal_strlit("Restaurant");
                reveal_strlit("Liquor");
                reveal_strlit("Beuty");
                reveal_strlit("FashionAndAccesories");
                reveal_strlit("Technology");
                reveal_strlit("Home");
                reveal_strlit("FarmacyAndHelth");
                reveal_strlit("VehiclesAndAccesories");
                reveal_strlit("Sports");
                reveal_strlit("Pets");
                assert("ArtAndCrafts"@.len() != "Shop"@.len());
                assert("ArtAndCrafts"@.len() != "Restaurant"@.len());
                assert("ArtAndCrafts"@.len() != "Liquor"@.len());
                assert("ArtAndCrafts"@.len() != "Beuty"@.len());
                assert("ArtAndCrafts"@.len() != "FashionAndAccesories"@.len());
                assert("ArtAndCrafts"@.len() != "Technology"@.len());
                assert("ArtAndCrafts"@.len() != "Home"@.len());
                assert("ArtAndCrafts"@.len() != "FarmacyAndHelth"@.len());
                assert("ArtAndCrafts"@.len() != "VehiclesAndAccesories"@.len());
                assert("ArtAndCrafts"@.len() != "Sports"@.len());
                assert("ArtAndCrafts"@.len() != "Pets"@.len());
            },
            ItemCategory::ToolsAndGarden => {
                reveal_strlit("ToolsAndGarden");
                reveal_strlit("Shop");
                reveal_strlit("Restaurant");
                reveal_strlit("Liquor");
                reveal_strlit("Beuty");
                reveal_strlit("FashionAndAccesories");
                reveal_strlit("Technology");
                reveal_strlit("Home");
                reveal_strlit("FarmacyAndHelth");
                reveal_strlit("VehiclesAndAccesories");
                reveal_strlit("Sports");
                reveal_strlit("Pets");
                reveal_strlit("ArtAndCrafts");
                assert("ToolsAndGarden"@.len() != "Shop"@.len());
                assert("ToolsAndGarden"@.len() != "Restaurant"@.len());
                assert("ToolsAndGarden"@.len() != "Liquor"@.len());
                assert("ToolsAndGarden"@.len() != "Beuty"@.len());
                assert("ToolsAndGarden"@.len() != "FashionAndAccesories"@.len());
                assert("ToolsAndGarden"@.len() != "Technology"@.len());
                assert("ToolsAndGarden"@.len() != "Home"@.len());
                assert("ToolsAndGarden"@.len() != "FarmacyAndHelth"@.len());
                assert("ToolsAndGarden"@.len() != "VehiclesAndAccesories"@.len());
                assert("ToolsAndGarden"@.len() != "Sports"@.len());
                assert("ToolsAndGarden"@.len() != "Pets"@.len());
                assert("ToolsAndGarden"@.len() != "ArtAndCrafts"@.len());
            },
            ItemCategory::BabysAndKids => {
                reveal_strlit("BabysAndKids");
                reveal_strlit("Shop");
                reveal_strlit("Restaurant");
                reveal_strlit("Liquor");
                reveal_strlit("Beuty");
                reveal_strlit("FashionAndAccesories");
                reveal_strlit("Technology");
                reveal_strlit("Home");
                reveal_strlit("FarmacyAndHelth");
                reveal_strlit("VehiclesAndAccesories");
                reveal_strlit("Sports");
                reveal_strlit("Pets");
                reveal_strlit("ArtAndCrafts");
                reveal_strlit("ToolsAndGarden");
                assert("BabysAndKids"@.len() != "Shop"@.len());
                assert("BabysAndKids"@.len() != "Restaurant"@.len());
                assert("BabysAndKids"@.len() != "Liquor"@.len());
                assert("BabysAndKids"@.len() != "Beuty"@.len());
                assert("BabysAndKids"@.len() != "FashionAndAccesories"@.len());
                assert("BabysAndKids"@.len() != "Technology"@.len());
                assert("BabysAndKids"@.len() != "Home"@.len());
                assert("BabysAndKids"@.len() != "FarmacyAndHelth"@.len());
                assert("BabysAndKids"@.len() != "VehiclesAndAccesories"@.len());
                assert("BabysAndKids"@.len() != "Sports"@.len());
                assert("BabysAndKids"@.len() != "Pets"@.len());
                assert("BabysAndKids"@[0] != "ArtAndCrafts"@[0]);
                assert("BabysAndKids"@.len() != "ToolsAndGarden"@.len());
            },
            ItemCategory::Entertainment => {
                reveal_strlit("Entertainment");
                reveal_strlit("Shop");
                reveal_strlit("Restaurant");
                reveal_strlit("Liquor");
                reveal_strlit("Beuty");
                reveal_strlit("FashionAndAccesories");
                reveal_strlit("Technology");
                reveal_strlit("Home");
                reveal_strlit("FarmacyAndHelth");
                reveal_strlit("VehiclesAndAccesories");
                reveal_strlit("Sports");
                reveal_strlit("Pets");
                reveal_strlit("ArtAndCrafts");
                reveal_strlit("ToolsAndGarden");
                reveal_strlit("BabysAndKids");
                assert("Entertainment"@.len() != "Shop"@.len());
                assert("Entertainment"@.len() != "Restaurant"@.len());
                assert("Entertainment"@.len() != "Liquor"@.len());
                assert("Entertainment"@.len() != "Beuty"@.len());
                assert("Entertainment"@.len() != "FashionAndAccesories"@.len());
                assert("Entertainment"@.len() != "Technology"@.len());
                assert("Entertainment"@.len() != "Home"@.len());
                assert("Entertainment"@.len() != "FarmacyAndHelth"@.len());
                assert("Entertainment"@.len() != "VehiclesAndAccesories"@.len());
                assert("Entertainment"@.len() != "Sports"@.len());
                assert("Entertainment"@.len() != "Pets"@.len());
                assert("Entertainment"@.len() != "ArtAndCrafts"@.len());
                assert("Entertainment"@.len() != "ToolsAndGarden"@.len());
                assert("Entertainment"@.len() != "BabysAndKids"@.len());
            },
            ItemCategory::ToysAndGames => {
                reveal_strlit("ToysAndGames");
                reveal_strlit("Shop");
                reveal_strlit("Restaurant");
                reveal_strlit("Liquor");
                reveal_strlit("Beuty");
                reveal_strlit("FashionAndAccesories");
                reveal_strlit("Technology");
                reveal_strlit("Home");
                reveal_strlit("FarmacyAndHelth");
                reveal_strlit("VehiclesAndAccesories");
                reveal_strlit("Sports");
                reveal_strlit("Pets");
                reveal_strlit("ArtAndCrafts");
                reveal_strlit("ToolsAndGarden");
                reveal_strlit("BabysAndKids");
                reveal_strlit("Entertainment");
                assert("ToysAndGames"@.len() != "Shop"@.len());
                assert("ToysAndGames"@.len() != "Restaurant"@.len());
                assert("ToysAndGames"@.len() != "Liquor"@.len());
                assert("ToysAndGames"@.len() != "Beuty"@.len());
                assert("ToysAndGames"@.len() != "FashionAndAccesories"@.len());
                assert("ToysAndGames"@.len() != "Technology"@.len());
                assert("ToysAndGames"@.len() != "Home"@.len());
                assert("ToysAndGames"@.len() != "FarmacyAndHelth"@.len());
                assert("ToysAndGames"@.len() != "VehiclesAndAccesories"@.len());
                assert("ToysAndGames"@.len() != "Sports"@.len());
                assert("ToysAndGames"@.len() != "Pets"@.len());
                assert("ToysAndGames"@[0] != "ArtAndCrafts"@[0]);
                assert("ToysAndGames"@.len() != "ToolsAndGarden"@.len());
                assert("ToysAndGames"@[0] != "BabysAndKids"@[0]);
                assert("ToysAndGames"@.len() != "Entertainment"@.len());
            },
            ItemCategory::BusinessesAndSupplies => {
                reveal_strlit("BusinessesAndSupplies");
                reveal_strlit("Shop");
                reveal_strlit("Restaurant");
                reveal_strlit("Liquor");
                reveal_strlit("Beuty");
                reveal_strlit("FashionAndAccesories");
                reveal_strlit("Technology");
                reveal_strlit("Home");
                reveal_strlit("FarmacyAndHelth");
                reveal_strlit("VehiclesAndAccesories");
                reveal_strlit("Sports");
                reveal_strlit("Pets");
                reveal_strlit("ArtAndCrafts");
                reveal_strlit("ToolsAndGarden");
                reveal_strlit("BabysAndKids");
                reveal_strlit("Entertainment");
                reveal_strlit("ToysAndGames");
                assert("BusinessesAndSupplies"@.len() != "Shop"@.len());
                assert("BusinessesAndSupplies"@.len() != "Restaurant"@.len());
                assert("BusinessesAndSupplies"@.len() != "Liquor"@.len());
                assert("BusinessesAndSupplies"@.len() != "Beuty"@.len());
                assert("BusinessesAndSupplies"@.len() != "FashionAndAccesories"@.len());
                assert("BusinessesAndSupplies"@.len() != "Technology"@.len());
                assert("BusinessesAndSupplies"@.len() != "Home"@.len());
                assert("BusinessesAndSupplies"@.len() != "FarmacyAndHelth"@.len());
                assert("BusinessesAndSupplies"@[0] != "VehiclesAndAccesories"@[0]);
                assert("BusinessesAndSupplies"@.len() != "Sports"@.len());
                assert("BusinessesAndSupplies"@.len() != "Pets"@.len());
                assert("BusinessesAndSupplies"@.len() != "ArtAndCrafts"@.len());
                assert("BusinessesAndSupplies"@.len() != "ToolsAndGarden"@.len());
                assert("BusinessesAndSupplies"@.len() != "BabysAndKids"@.len());
                assert("BusinessesAndSupplies"@.len() != "Entertainment"@.len());
                assert("BusinessesAndSupplies"@.len() != "ToysAndGames"@.len());
            },
            ItemCategory::SexShop => {
                reveal_strlit("SexShop");
                reveal_strlit("Shop");
                reveal_strlit("Restaurant");
                reveal_strlit("Liquor");
                reveal_strlit("Beuty");
                reveal_strlit("FashionAndAccesories");
                reveal_strlit("Technology");
                reveal_strlit("Home");
                reveal_strlit("FarmacyAndHelth");
                reveal_strlit("VehiclesAndAccesories");
                reveal_strlit("Sports");
                reveal_strlit("Pets");
                reveal_strlit("ArtAndCrafts");
                reveal_strlit("ToolsAndGarden");
                reveal_strlit("BabysAndKids");
                reveal_strlit("Entertainment");
                reveal_strlit("ToysAndGames");
                reveal_strlit("BusinessesAndSupplies");
                assert("SexShop"@.len() != "Shop"@.len());
                assert("SexShop"@.len() != "Restaurant"@.len());
                assert("SexShop"@.len() != "Liquor"@.len());
                assert("SexShop"@.len() != "Beuty"@.len());
                assert("SexShop"@.len() != "FashionAndAccesories"@.len());
                assert("SexShop"@.len() != "Technology"@.len());
                assert("SexShop"@.len() != "Home"@.len());
                assert("SexShop"@.len() != "FarmacyAndHelth"@.len());
                assert("SexShop"@.len() != "VehiclesAndAccesories"@.len());
                assert("SexShop"@.len() != "Sports"@.len());
                assert("SexShop"@.len() != "Pets"@.len());
                assert("SexShop"@.len() != "ArtAndCrafts"@.len());
                assert("SexShop"@.len() != "ToolsAndGarden"@.len());
                assert("SexShop"@.len() != "BabysAndKids"@.len());
                assert("SexShop"@.len() != "Entertainment"@.len());
                assert("SexShop"@.len() != "ToysAndGames"@.len());
                assert("SexShop"@.len() != "BusinessesAndSupplies"@.len());
            },
            ItemCategory::PaperWork => {
                reveal_strlit("PaperWork");
                reveal_strlit("Shop");
                reveal_strlit("Restaurant");
                reveal_strlit("Liquor");
                reveal_strlit("Beuty");
                reveal_strlit("FashionAndAccesories");
                reveal_strlit("Technology");
                reveal_strlit("Home");
                reveal_strlit("FarmacyAndHelth");
                reveal_strlit("VehiclesAndAccesories");
                reveal_strlit("Sports");
                reveal_strlit("Pets");
                reveal_strlit("ArtAndCrafts");
                reveal_strlit("ToolsAndGarden");
                reveal_strlit("BabysAndKids");
                reveal_strlit("Entertainment");
                reveal_strlit("ToysAndGames");
                reveal_strlit("BusinessesAndSupplies");
                reveal_strlit("SexShop");
                assert("PaperWork"@.len() != "Shop"@.len());
                assert("PaperWork"@.len() != "Restaurant"@.len());
                assert("PaperWork"@.len() != "Liquor"@.len());
                assert("PaperWork"@.len() != "Beuty"@.len());
                assert("PaperWork"@.len() != "FashionAndAccesories"@.len());
                assert("PaperWork"@.len() != "Technology"@.len());
                assert("PaperWork"@.len() != "Home"@.len());
                assert("PaperWork"@.len() != "FarmacyAndHelth"@.len());
                assert("PaperWork"@.len() != "VehiclesAndAccesories"@.len());
                assert("PaperWork"@.len() != "Sports"@.len());
                assert("PaperWork"@.len() != "Pets"@.len());
                assert("PaperWork"@.len() != "ArtAndCrafts"@.len());
                assert("PaperWork"@.len() != "ToolsAndGarden"@.len());
                assert("PaperWork"@.len() != "BabysAndKids"@.len());
                assert("PaperWork"@.len() != "Entertainment"@.len());
                assert("PaperWork"@.len() != "ToysAndGames"@.len());
                assert("PaperWork"@.len() != "BusinessesAndSupplies"@.len());
                assert("PaperWork"@.len() != "SexShop"@.len());
            },
        }
    }
}


/// A price amount: a single-precision floating-point number, held as its
/// IEEE-754 bit pattern so that it is carried and compared exactly.
#[derive(Clone, Copy, Debug, PartialEq, Eq, Structural)]
pub struct Amount {
    pub bits: u32,
}

impl Amount {
    pub fn from_bits(bits: u32) -> (r: Amount)
        ensures
            r.bits == bits,
    {
        Amount { bits }
    }

    pub fn to_bits(&self) -> (r: u32)
        ensures
            r == self.bits,
    {
        self.bits
    }
}

/// How an item is paid for.
#[derive(Clone, Debug, PartialEq)]
pub enum Price {
    Fixed { amount: Amount, currency: String },
}

pub enum PriceView {
    Fixed { amount: Amount, currency: Seq<char> },
}

impl View for Price {
    type V = PriceView;

    open spec fn view(&self) -> PriceView {
        match self {
            Price::Fixed { amount, currency } => PriceView::Fixed { amount: *amount, currency: currency@ },
        }
    }
}

/// A reference to a picture held elsewhere.
#[derive(Clone, Debug, PartialEq, Eq)]
pub struct Image {
    pub url: String,
}

pub struct ImageView {
    pub url: Seq<char>,
}

impl View for Image {
    type V = ImageView;

    open spec fn view(&self) -> ImageView {
        ImageView { url: self.url@ }
    }
}

pub open spec fn texts_view(v: Seq<String>) -> Seq<Seq<char>> {
    v.map_values(|s: String| s@)
}

pub open spec fn images_view(v: Seq<Image>) -> Seq<ImageView> {
    v.map_values(|i: Image| i@)
}

/// The product itself, apart from how it is sold or priced.
#[derive(Clone, Debug, PartialEq, Eq)]
pub struct Item {
    pub category: ItemCategory,
    pub tags: Vec<String>,
    pub name: String,
    pub description: String,
    pub enabled: bool,
}

pub struct ItemView {
    pub category: ItemCategory,
    pub tags: Seq<Seq<char>>,
    pub name: Seq<char>,
    pub description: Seq<char>,
    pub enabled: bool,
}

impl View for Item {
    type V = ItemView;

    open spec fn view(&self) -> ItemView {
        ItemView {
            category: self.category,
            tags: texts_view(self.tags@),
            name: self.name@,
            description: self.description@,
            enabled: self.enabled,
        }
    }
}

/// A purchasable, stocked variant of an item; `item_id` names the item it belongs to.
#[derive(Clone, Debug, PartialEq)]
pub struct ItemVariation<Id> {
    pub item_id: Id,
    pub name: String,
    pub sku: String,
    pub images: Vec<Image>,
    pub upc: Option<String>,
    pub enabled: bool,
    pub measurement_units: ItemMeasurmentUnits,
    pub available_units: i32,
    pub price: Price,
}

pub struct VariationView<I> {
    pub item_id: I,
    pub name: Seq<char>,
    pub sku: Seq<char>,
    pub images: Seq<ImageView>,
    pub upc: Option<Seq<char>>,
    pub enabled: bool,
    pub measurement_units: ItemMeasurmentUnits,
    pub available_units: i32,
    pub price: PriceView,
}

pub open spec fn option_text_view(o: Option<String>) -> Option<Seq<char>> {
    match o {
        Some(s) => Some(s@),
        None => None,
    }
}

impl<Id: View> View for ItemVariation<Id> {
    type V = VariationView<Id::V>;

    open spec fn view(&self) -> VariationView<Id::V> {
        VariationView {
            item_id: self.item_id@,
            name: self.name@,
            sku: self.sku@,
            images: images_view(self.images@),
            upc: option_text_view(self.upc),
            enabled: self.enabled,
            measurement_units: self.measurement_units,
            available_units: self.available_units,
            price: self.price@,
        }
    }
}

/// An add-on to an item: priced, but neither stocked nor measured.
#[derive(Clone, Debug, PartialEq)]
pub struct ItemModification<Id> {
    pub item_id: Id,
    pub name: String,
    pub images: Vec<Image>,
    pub price: Price,
    pub enabled: bool,
}

pub struct ModificationView<I> {
    pub item_id: I,
    pub name: Seq<char>,
    pub images: Seq<ImageView>,
    pub price: PriceView,
    pub enabled: bool,
}

impl<Id: View> View for ItemModification<Id> {
    type V = ModificationView<Id::V>;

    open spec fn view(&self) -> ModificationView<Id::V> {
        ModificationView {
            item_id: self.item_id@,
            name: self.name@,
            images: images_view(self.images@),
            price: self.price@,
            enabled: self.enabled,
        }
    }
}

/// Any one catalog entry: exactly one of the entity shapes.
#[derive(Clone, Debug, PartialEq)]
pub enum CatalogObject<Id> {
    Item(Item),
    Variation(ItemVariation<Id>),
    Modification(ItemModification<Id>),
}

pub enum CatalogObjectView<I> {
    Item(ItemView),
    Variation(VariationView<I>),
    Modification(ModificationView<I>),
}

impl<Id: View> View for CatalogObject<Id> {
    type V = CatalogObjectView<Id::V>;

    open spec fn view(&self) -> CatalogObjectView<Id::V> {
        match self {
            CatalogObject::Item(it) => CatalogObjectView::Item(it@),
            CatalogObject::Variation(v) => CatalogObjectView::Variation(v@),
            CatalogObject::Modification(m) => CatalogObjectView::Modification(m@),
        }
    }
}

impl<Id> From<Item> for CatalogObject<Id> {
    fn from(it: Item) -> (r: Self) {
        CatalogObject::Item(it)
    }
}

impl<Id> vstd::std_specs::convert::FromSpecImpl<Item> for CatalogObject<Id> {
    open spec fn obeys_from_spec() -> bool {
        true
    }

    open spec fn from_spec(it: Item) -> Self {
        CatalogObject::Item(it)
    }
}

impl<Id> From<ItemVariation<Id>> for CatalogObject<Id> {
    fn from(v: ItemVariation<Id>) -> (r: Self) {
        CatalogObject::Variation(v)
    }
}

impl<Id> vstd::std_specs::convert::FromSpecImpl<ItemVariation<Id>> for CatalogObject<Id> {
    open spec fn obeys_from_spec() -> bool {
        true
    }

    open spec fn from_spec(v: ItemVariation<Id>) -> Self {
        CatalogObject::Variation(v)
    }
}

impl<Id> From<ItemModification<Id>> for CatalogObject<Id> {
    fn from(m: ItemModification<Id>) -> (r: Self) {
        CatalogObject::Modification(m)
    }
}

impl<Id> vstd::std_specs::convert::FromSpecImpl<ItemModification<Id>> for CatalogObject<Id> {
    open spec fn obeys_from_spec() -> bool {
        true
    }

    open spec fn from_spec(m: ItemModification<Id>) -> Self {
        CatalogObject::Modification(m)
    }
}

impl<Id> CatalogObject<Id> {
    /// The item held here, if this entry is an item.
    pub fn item(&self) -> (r: Option<&Item>)
        ensures
            match self {
                CatalogObject::Item(it) => r == Some(it),
                _ => r is None,
            },
    {
        match self {
            CatalogObject::Item(it) => Some(it),
            _ => None,
        }
    }

    /// The variation held here, if this entry is a variation.
    pub fn variation(&self) -> (r: Option<&ItemVariation<Id>>)
        ensures
            match self {
                CatalogObject::Variation(v) => r == Some(v),
                _ => r is None,
            },
    {
        match self {
            CatalogObject::Variation(v) => Some(v),
            _ => None,
        }
    }

    /// The modification held here, if this entry is a modification.
    pub fn modification(&self) -> (r: Option<&ItemModification<Id>>)
        ensures
            match self {
                CatalogObject::Modification(m) => r == Some(m),
                _ => r is None,
            },
    {
        match self {
            CatalogObject::Modification(m) => Some(m),
            _ => None,
        }
    }
}

/// Seconds since the Unix epoch.
pub type Timestamp = u32;

/// A counter that moves forward each time a stored record changes.
pub type Version = u16;

/// The stored and transmitted record: identity, owner, version and time of
/// creation around one catalog entry.
#[derive(Clone, Debug, PartialEq)]
pub struct CatalogObjectDocument<Id, Account> {
    pub id: Id,
    pub account: Account,
    pub version: Version,
    pub created_at: Timestamp,
    pub catalog_object: CatalogObject<Id>,
}

pub struct DocumentView<I, A> {
    pub id: I,
    pub account: A,
    pub version: u16,
    pub created_at: u32,
    pub catalog_object: CatalogObjectView<I>,
}

impl<Id: View, Account: View> View for CatalogObjectDocument<Id, Account> {
    type V = DocumentView<Id::V, Account::V>;

    open spec fn view(&self) -> DocumentView<Id::V, Account::V> {
        DocumentView {
            id: self.id@,
            account: self.account@,
            version: self.version,
            created_at: self.created_at,
            catalog_object: self.catalog_object@,
        }
    }
}

} // verus!
