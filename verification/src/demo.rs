//! The demo marketplace: a fixed catalog of fictional listings, quotes at the
//! standard 6% service fee, and an in-memory book of demo orders that follows
//! the order state machine.
use vstd::prelude::*;

use crate::domain::order_state::{next_order_state, OrderAction, OrderState};
use crate::domain::pricing::BillingUnit;
use crate::domain::quote::{
    calculate_quote, has_negative_amount, is_breakdown, quote_fits, FulfillmentMethod,
    PricingSnapshot, QuoteBreakdown, QuoteInput,
};
use crate::text::{lemma_trimmed_unchanged, text, text_eq, trimmed};

verus! {

/// A fictional listing of the demo catalog.
#[derive(Debug, Clone)]
pub struct DemoListing {
    pub id: &'static str,
    pub owner_id: &'static str,
    pub title: &'static str,
    pub listing_type: &'static str,
    pub category: &'static str,
    pub description: &'static str,
    pub city: &'static str,
    pub state: &'static str,
    pub condition: &'static str,
    pub unit_price_cents: i64,
    pub deposit_cents: i64,
    pub delivery_fee_cents: i64,
    pub billing_unit: BillingUnit,
    pub fulfillment: Vec<FulfillmentMethod>,
    pub accent: &'static str,
    pub icon: &'static str,
    pub image_src: &'static str,
    pub image_alt: &'static str,
}

/// The number of listings in the demo catalog.
pub open spec fn catalog_len() -> int {
    12
}

/// Row `i` of the demo catalog: id, owner, unit price, deposit, delivery fee,
/// billing unit and fulfillment methods.
pub open spec fn catalog_row(i: int) -> (
    Seq<char>,
    Seq<char>,
    i64,
    i64,
    i64,
    BillingUnit,
    Seq<FulfillmentMethod>,
) {
    if i == 0 {
        ("ps5-slim"@, "seller-demo"@, 1200, 10000, 800, BillingUnit::ThirtyMinutes, seq![FulfillmentMethod::Pickup, FulfillmentMethod::Delivery, FulfillmentMethod::OwnerLocation])
    } else if i == 1 {
        ("ps5-pro"@, "seller-demo"@, 1800, 15000, 1200, BillingUnit::ThirtyMinutes, seq![FulfillmentMethod::Pickup, FulfillmentMethod::Delivery])
    } else if i == 2 {
        ("macbook"@, "tech-demo"@, 5200, 20000, 1000, BillingUnit::Day, seq![FulfillmentMethod::Pickup, FulfillmentMethod::Delivery])
    } else if i == 3 {
        ("gaming-pc"@, "tech-demo"@, 6800, 25000, 1800, BillingUnit::Day, seq![FulfillmentMethod::Delivery, FulfillmentMethod::OwnerLocation])
    } else if i == 4 {
        ("sony-camera"@, "creator-demo"@, 7500, 30000, 1200, BillingUnit::Day, seq![FulfillmentMethod::Pickup, FulfillmentMethod::Delivery])
    } else if i == 5 {
        ("podcast-kit"@, "creator-demo"@, 4200, 12000, 1000, BillingUnit::Day, seq![FulfillmentMethod::Pickup, FulfillmentMethod::Delivery])
    } else if i == 6 {
        ("tool-set"@, "maker-demo"@, 2800, 8000, 900, BillingUnit::Day, seq![FulfillmentMethod::Pickup, FulfillmentMethod::Delivery])
    } else if i == 7 {
        ("laser-cutter"@, "maker-demo"@, 2200, 0, 0, BillingUnit::ThirtyMinutes, seq![FulfillmentMethod::OnSite])
    } else if i == 8 {
        ("photo-studio"@, "seller-demo"@, 3500, 5000, 0, BillingUnit::ThirtyMinutes, seq![FulfillmentMethod::OnSite])
    } else if i == 9 {
        ("print-shop"@, "business-demo"@, 3000, 0, 0, BillingUnit::ThirtyMinutes, seq![FulfillmentMethod::OnSite])
    } else if i == 10 {
        ("monitor-sale"@, "tech-demo"@, 16500, 0, 1500, BillingUnit::Day, seq![FulfillmentMethod::Pickup, FulfillmentMethod::Delivery])
    } else if i == 11 {
        ("camera-sale"@, "creator-demo"@, 6500, 0, 700, BillingUnit::Day, seq![FulfillmentMethod::Pickup, FulfillmentMethod::Delivery])
    } else {
        (Seq::empty(), Seq::empty(), 0, 0, 0, BillingUnit::Day, Seq::empty())
    }
}

/// The texts of row `i` of the demo catalog: title, listing type, category,
/// description, city, state, condition, accent colour, icon and image
/// description.
pub open spec fn catalog_texts(i: int) -> (
    Seq<char>,
    Seq<char>,
    Seq<char>,
    Seq<char>,
    Seq<char>,
    Seq<char>,
    Seq<char>,
    Seq<char>,
    Seq<char>,
    Seq<char>,
) {
    if i == 0 {
        ("PS5 Slim + Two Controllers"@, "rental"@, "Gaming"@, "Quiet, clean console with Spider-Man 2 and HDMI cable. Great for a weekend with friends."@, "Wellesley"@, "MA"@, "Like new"@, "#6d5dfc"@, "🎮"@, "White PlayStation 5 console with two controllers"@)
    } else if i == 1 {
        ("PS5 Pro Creator Setup"@, "rental"@, "Gaming"@, "High-performance console with headset and capture card for streams or tournaments."@, "Newton"@, "MA"@, "Excellent"@, "#8b5cf6"@, "🕹️"@, "Gaming console, controller, and streaming headset setup"@)
    } else if i == 2 {
        ("MacBook Pro M2 14-inch"@, "rental"@, "Computers"@, "Portable editing and development laptop with charger and protective sleeve."@, "Needham"@, "MA"@, "Excellent"@, "#0ea5e9"@, "💻"@, "Open MacBook Pro laptop on a clean desk"@)
    } else if i == 3 {
        ("RTX Gaming & Rendering PC"@, "rental"@, "Computers"@, "RTX 4070 desktop for gaming, 3D work, and short production projects."@, "Waltham"@, "MA"@, "Very good"@, "#06b6d4"@, "🖥️"@, "RGB desktop computer and monitor gaming setup"@)
    } else if i == 4 {
        ("Sony A7 IV Camera Kit"@, "rental"@, "Cameras"@, "Full-frame camera, 28–70mm lens, batteries, SD card, and compact tripod."@, "Brookline"@, "MA"@, "Excellent"@, "#f97316"@, "📷"@, "Mirrorless camera with lens and creator accessories"@)
    } else if i == 5 {
        ("Two-Person Podcast Kit"@, "rental"@, "Cameras"@, "Two microphones, audio interface, table arms, headphones, and cables."@, "Boston"@, "MA"@, "Good"@, "#fb7185"@, "🎙️"@, "Two microphones and headphones arranged for a podcast"@)
    } else if i == 6 {
        ("Cordless Home Project Tool Set"@, "rental"@, "Tools"@, "Drill, driver, sander, batteries, safety glasses, and organized case."@, "Dedham"@, "MA"@, "Good"@, "#f59e0b"@, "🛠️"@, "Cordless drill and home project tools on a workbench"@)
    } else if i == 7 {
        ("Desktop Laser Cutter Session"@, "workspace"@, "Maker space"@, "Supervised laser cutter and ventilation station. Materials charged separately."@, "Cambridge"@, "MA"@, "Professional"@, "#eab308"@, "⚙️"@, "Laser cutting machine in a supervised maker workshop"@)
    } else if i == 8 {
        ("Natural-Light Photo Studio"@, "workspace"@, "Studio"@, "500 sq ft studio with backdrops, lights, changing area, and freight elevator."@, "Boston"@, "MA"@, "Professional"@, "#ec4899"@, "🎬"@, "Bright photography studio with lights and backdrop"@)
    } else if i == 9 {
        ("Small-Batch Print Workshop"@, "workspace"@, "Printing"@, "Book presses, cutters, worktables, and help from an experienced operator."@, "Somerville"@, "MA"@, "Professional"@, "#14b8a6"@, "🖨️"@, "Small print workshop with presses and worktables"@)
    } else if i == 10 {
        ("Used 27-inch 4K Monitor"@, "sale"@, "Second-hand"@, "Color-accurate display with stand and cables. Small cosmetic mark on rear shell."@, "Newton"@, "MA"@, "Very good"@, "#3b82f6"@, "🖥️"@, "Twenty-seven inch monitor on a desktop"@)
    } else if i == 11 {
        ("Second-Hand Instant Camera"@, "sale"@, "Second-hand"@, "Tested instant camera with case and one unopened film pack."@, "Wellesley"@, "MA"@, "Good"@, "#a855f7"@, "📸"@, "Second-hand instant camera with film pack"@)
    } else {
        (Seq::empty(), Seq::empty(), Seq::empty(), Seq::empty(), Seq::empty(), Seq::empty(), Seq::empty(), Seq::empty(), Seq::empty(), Seq::empty())
    }
}

/// The image of a catalog listing: `/images/listings/<id>.jpg`.
pub open spec fn catalog_image(id: Seq<char>) -> Seq<char> {
    "/images/listings/"@ + id + ".jpg"@
}

/// `l` is listing `i` of the demo catalog.
pub open spec fn is_catalog_listing(l: DemoListing, i: int) -> bool {
    let row = catalog_row(i);
    let texts = catalog_texts(i);
    &&& l.id@ == row.0
    &&& l.owner_id@ == row.1
    &&& l.unit_price_cents == row.2
    &&& l.deposit_cents == row.3
    &&& l.delivery_fee_cents == row.4
    &&& l.billing_unit == row.5
    &&& l.fulfillment@ == row.6
    &&& l.title@ == texts.0
    &&& l.listing_type@ == texts.1
    &&& l.category@ == texts.2
    &&& l.description@ == texts.3
    &&& l.city@ == texts.4
    &&& l.state@ == texts.5
    &&& l.condition@ == texts.6
    &&& l.accent@ == texts.7
    &&& l.icon@ == texts.8
    &&& l.image_alt@ == texts.9
    &&& l.image_src@ == catalog_image(row.0)
}

/// The demo catalog.
pub fn listings() -> (catalog: Vec<DemoListing>)
    ensures
        catalog@.len() == catalog_len(),
        forall|i: int| 0 <= i < catalog_len() ==> is_catalog_listing(#[trigger] catalog@[i], i),
{
    let mut catalog: Vec<DemoListing> = Vec::new();
    catalog.push(
        DemoListing {
            id: "ps5-slim",
            owner_id: "seller-demo",
            title: "PS5 Slim + Two Controllers",
            listing_type: "rental",
            category: "Gaming",
            description: "Quiet, clean console with Spider-Man 2 and HDMI cable. Great for a weekend with friends.",
            city: "Wellesley",
            state: "MA",
            condition: "Like new",
            unit_price_cents: 1200,
            deposit_cents: 10000,
            delivery_fee_cents: 800,
            billing_unit: BillingUnit::ThirtyMinutes,
            fulfillment: vec![FulfillmentMethod::Pickup, FulfillmentMethod::Delivery, FulfillmentMethod::OwnerLocation],
            accent: "#6d5dfc",
            icon: "🎮",
            image_src: "/images/listings/ps5-slim.jpg",
            image_alt: "White PlayStation 5 console with two controllers",
        },
    );
    catalog.push(
        DemoListing {
            id: "ps5-pro",
            owner_id: "seller-demo",
            title: "PS5 Pro Creator Setup",
            listing_type: "rental",
            category: "Gaming",
            description: "High-performance console with headset and capture card for streams or tournaments.",
            city: "Newton",
            state: "MA",
            condition: "Excellent",
            unit_price_cents: 1800,
            deposit_cents: 15000,
            delivery_fee_cents: 1200,
            billing_unit: BillingUnit::ThirtyMinutes,
            fulfillment: vec![FulfillmentMethod::Pickup, FulfillmentMethod::Delivery],
            accent: "#8b5cf6",
            icon: "🕹️",
            image_src: "/images/listings/ps5-pro.jpg",
            image_alt: "Gaming console, controller, and streaming headset setup",
        },
    );
    catalog.push(
        DemoListing {
            id: "macbook",
            owner_id: "tech-demo",
            title: "MacBook Pro M2 14-inch",
            listing_type: "rental",
            category: "Computers",
            description: "Portable editing and development laptop with charger and protective sleeve.",
            city: "Needham",
            state: "MA",
            condition: "Excellent",
            unit_price_cents: 5200,
            deposit_cents: 20000,
            delivery_fee_cents: 1000,
            billing_unit: BillingUnit::Day,
            fulfillment: vec![FulfillmentMethod::Pickup, FulfillmentMethod::Delivery],
            accent: "#0ea5e9",
            icon: "💻",
            image_src: "/images/listings/macbook.jpg",
            image_alt: "Open MacBook Pro laptop on a clean desk",
        },
    );
    catalog.push(
        DemoListing {
            id: "gaming-pc",
            owner_id: "tech-demo",
            title: "RTX Gaming & Rendering PC",
            listing_type: "rental",
            category: "Computers",
            description: "RTX 4070 desktop for gaming, 3D work, and short production projects.",
            city: "Waltham",
            state: "MA",
            condition: "Very good",
            unit_price_cents: 6800,
            deposit_cents: 25000,
            delivery_fee_cents: 1800,
            billing_unit: BillingUnit::Day,
            fulfillment: vec![FulfillmentMethod::Delivery, FulfillmentMethod::OwnerLocation],
            accent: "#06b6d4",
            icon: "🖥️",
            image_src: "/images/listings/gaming-pc.jpg",
            image_alt: "RGB desktop computer and monitor gaming setup",
        },
    );
    catalog.push(
        DemoListing {
            id: "sony-camera",
            owner_id: "creator-demo",
            title: "Sony A7 IV Camera Kit",
            listing_type: "rental",
            category: "Cameras",
            description: "Full-frame camera, 28–70mm lens, batteries, SD card, and compact tripod.",
            city: "Brookline",
            state: "MA",
            condition: "Excellent",
            unit_price_cents: 7500,
            deposit_cents: 30000,
            delivery_fee_cents: 1200,
            billing_unit: BillingUnit::Day,
            fulfillment: vec![FulfillmentMethod::Pickup, FulfillmentMethod::Delivery],
            accent: "#f97316",
            icon: "📷",
            image_src: "/images/listings/sony-camera.jpg",
            image_alt: "Mirrorless camera with lens and creator accessories",
        },
    );
    catalog.push(
        DemoListing {
            id: "podcast-kit",
            owner_id: "creator-demo",
            title: "Two-Person Podcast Kit",
            listing_type: "rental",
            category: "Cameras",
            description: "Two microphones, audio interface, table arms, headphones, and cables.",
            city: "Boston",
            state: "MA",
            condition: "Good",
            unit_price_cents: 4200,
            deposit_cents: 12000,
            delivery_fee_cents: 1000,
            billing_unit: BillingUnit::Day,
            fulfillment: vec![FulfillmentMethod::Pickup, FulfillmentMethod::Delivery],
            accent: "#fb7185",
            icon: "🎙️",
            image_src: "/images/listings/podcast-kit.jpg",
            image_alt: "Two microphones and headphones arranged for a podcast",
        },
    );
    catalog.push(
        DemoListing {
            id: "tool-set",
            owner_id: "maker-demo",
            title: "Cordless Home Project Tool Set",
            listing_type: "rental",
            category: "Tools",
            description: "Drill, driver, sander, batteries, safety glasses, and organized case.",
            city: "Dedham",
            state: "MA",
            condition: "Good",
            unit_price_cents: 2800,
            deposit_cents: 8000,
            delivery_fee_cents: 900,
            billing_unit: BillingUnit::Day,
            fulfillment: vec![FulfillmentMethod::Pickup, FulfillmentMethod::Delivery],
            accent: "#f59e0b",
            icon: "🛠️",
            image_src: "/images/listings/tool-set.jpg",
            image_alt: "Cordless drill and home project tools on a workbench",
        },
    );
    catalog.push(
        DemoListing {
            id: "laser-cutter",
            owner_id: "maker-demo",
            title: "Desktop Laser Cutter Session",
            listing_type: "workspace",
            category: "Maker space",
            description: "Supervised laser cutter and ventilation station. Materials charged separately.",
            city: "Cambridge",
            state: "MA",
            condition: "Professional",
            unit_price_cents: 2200,
            deposit_cents: 0,
            delivery_fee_cents: 0,
            billing_unit: BillingUnit::ThirtyMinutes,
            fulfillment: vec![FulfillmentMethod::OnSite],
            accent: "#eab308",
            icon: "⚙️",
            image_src: "/images/listings/laser-cutter.jpg",
            image_alt: "Laser cutting machine in a supervised maker workshop",
        },
    );
    catalog.push(
        DemoListing {
            id: "photo-studio",
            owner_id: "seller-demo",
            title: "Natural-Light Photo Studio",
            listing_type: "workspace",
            category: "Studio",
            description: "500 sq ft studio with backdrops, lights, changing area, and freight elevator.",
            city: "Boston",
            state: "MA",
            condition: "Professional",
            unit_price_cents: 3500,
            deposit_cents: 5000,
            delivery_fee_cents: 0,
            billing_unit: BillingUnit::ThirtyMinutes,
            fulfillment: vec![FulfillmentMethod::OnSite],
            accent: "#ec4899",
            icon: "🎬",
            image_src: "/images/listings/photo-studio.jpg",
            image_alt: "Bright photography studio with lights and backdrop",
        },
    );
    catalog.push(
        DemoListing {
            id: "print-shop",
            owner_id: "business-demo",
            title: "Small-Batch Print Workshop",
            listing_type: "workspace",
            category: "Printing",
            description: "Book presses, cutters, worktables, and help from an experienced operator.",
            city: "Somerville",
            state: "MA",
            condition: "Professional",
            unit_price_cents: 3000,
            deposit_cents: 0,
            delivery_fee_cents: 0,
            billing_unit: BillingUnit::ThirtyMinutes,
            fulfillment: vec![FulfillmentMethod::OnSite],
            accent: "#14b8a6",
            icon: "🖨️",
            image_src: "/images/listings/print-shop.jpg",
            image_alt: "Small print workshop with presses and worktables",
        },
    );
    catalog.push(
        DemoListing {
            id: "monitor-sale",
            owner_id: "tech-demo",
            title: "Used 27-inch 4K Monitor",
            listing_type: "sale",
            category: "Second-hand",
            description: "Color-accurate display with stand and cables. Small cosmetic mark on rear shell.",
            city: "Newton",
            state: "MA",
            condition: "Very good",
            unit_price_cents: 16500,
            deposit_cents: 0,
            delivery_fee_cents: 1500,
            billing_unit: BillingUnit::Day,
            fulfillment: vec![FulfillmentMethod::Pickup, FulfillmentMethod::Delivery],
            accent: "#3b82f6",
            icon: "🖥️",
            image_src: "/images/listings/monitor-sale.jpg",
            image_alt: "Twenty-seven inch monitor on a desktop",
        },
    );
    catalog.push(
        DemoListing {
            id: "camera-sale",
            owner_id: "creator-demo",
            title: "Second-Hand Instant Camera",
            listing_type: "sale",
            category: "Second-hand",
            description: "Tested instant camera with case and one unopened film pack.",
            city: "Wellesley",
            state: "MA",
            condition: "Good",
            unit_price_cents: 6500,
            deposit_cents: 0,
            delivery_fee_cents: 700,
            billing_unit: BillingUnit::Day,
            fulfillment: vec![FulfillmentMethod::Pickup, FulfillmentMethod::Delivery],
            accent: "#a855f7",
            icon: "📸",
            image_src: "/images/listings/camera-sale.jpg",
            image_alt: "Second-hand instant camera with film pack",
        },
    );
    proof {
        reveal_strlit("/images/listings/");
        reveal_strlit(".jpg");
        reveal_strlit("ps5-slim");
        reveal_strlit("/images/listings/ps5-slim.jpg");
        reveal_strlit("ps5-pro");
        reveal_strlit("/images/listings/ps5-pro.jpg");
        reveal_strlit("macbook");
        reveal_strlit("/images/listings/macbook.jpg");
        reveal_strlit("gaming-pc");
        reveal_strlit("/images/listings/gaming-pc.jpg");
        reveal_strlit("sony-camera");
        reveal_strlit("/images/listings/sony-camera.jpg");
        reveal_strlit("podcast-kit");
        reveal_strlit("/images/listings/podcast-kit.jpg");
        reveal_strlit("tool-set");
        reveal_strlit("/images/listings/tool-set.jpg");
        reveal_strlit("laser-cutter");
        reveal_strlit("/images/listings/laser-cutter.jpg");
        reveal_strlit("photo-studio");
        reveal_strlit("/images/listings/photo-studio.jpg");
        reveal_strlit("print-shop");
        reveal_strlit("/images/listings/print-shop.jpg");
        reveal_strlit("monitor-sale");
        reveal_strlit("/images/listings/monitor-sale.jpg");
        reveal_strlit("camera-sale");
        reveal_strlit("/images/listings/camera-sale.jpg");
        assert forall|i: int| 0 <= i < catalog_len() implies is_catalog_listing(
            #[trigger] catalog@[i],
            i,
        ) by {
            assert(catalog@[i].fulfillment@ =~= catalog_row(i).6);
            assert(catalog@[i].image_src@ =~= catalog_image(catalog_row(i).0));
        }
    }
    catalog
}

/// The shape of the demo catalog: ids are distinct; every listing is a
/// rental, a workspace or a sale, and a workspace exactly when it is used
/// on site only; each offers at least one fulfillment method, none twice, and
/// delivery exactly when it charges a delivery fee; unit prices are positive
/// and deposits never negative; and every image has a description that is
/// not blank.
pub proof fn lemma_catalog_shape()
    ensures
        forall|i: int, j: int|
            0 <= i < j < catalog_len() ==> #[trigger] catalog_row(i).0 != #[trigger] catalog_row(j).0,
        forall|i: int|
            #![trigger catalog_row(i)]
            0 <= i < catalog_len() ==> {
                let row = catalog_row(i);
                let kind = catalog_texts(i).1;
                &&& kind == "rental"@ || kind == "workspace"@ || kind == "sale"@
                &&& (kind == "workspace"@) == (row.6 == seq![FulfillmentMethod::OnSite])
                &&& row.6.len() > 0
                &&& row.6.no_duplicates()
                &&& row.6.contains(FulfillmentMethod::Delivery) == (row.4 > 0)
                &&& row.2 > 0
                &&& row.3 >= 0
                &&& trimmed(catalog_texts(i).9).len() > 0
            },
{
    reveal_strlit("rental");
    reveal_strlit("workspace");
    reveal_strlit("sale");
    assert("rental"@.len() == 6 && "workspace"@.len() == 9 && "sale"@.len() == 4);
    assert("rental"@ != "workspace"@ && "sale"@ != "workspace"@);
    reveal_strlit("ps5-slim");
    reveal_strlit("White PlayStation 5 console with two controllers");
    reveal_strlit("ps5-pro");
    reveal_strlit("Gaming console, controller, and streaming headset setup");
    reveal_strlit("macbook");
    reveal_strlit("Open MacBook Pro laptop on a clean desk");
    reveal_strlit("gaming-pc");
    reveal_strlit("RGB desktop computer and monitor gaming setup");
    reveal_strlit("sony-camera");
    reveal_strlit("Mirrorless camera with lens and creator accessories");
    reveal_strlit("podcast-kit");
    reveal_strlit("Two microphones and headphones arranged for a podcast");
    reveal_strlit("tool-set");
    reveal_strlit("Cordless drill and home project tools on a workbench");
    reveal_strlit("laser-cutter");
    reveal_strlit("Laser cutting machine in a supervised maker workshop");
    reveal_strlit("photo-studio");
    reveal_strlit("Bright photography studio with lights and backdrop");
    reveal_strlit("print-shop");
    reveal_strlit("Small print workshop with presses and worktables");
    reveal_strlit("monitor-sale");
    reveal_strlit("Twenty-seven inch monitor on a desktop");
    reveal_strlit("camera-sale");
    reveal_strlit("Second-hand instant camera with film pack");
    assert forall|i: int, j: int|
        0 <= i < j < catalog_len() implies #[trigger] catalog_row(i).0 != #[trigger] catalog_row(j).0 by {
        assert(catalog_row(i).0.len() != catalog_row(j).0.len() || catalog_row(i).0[0] != catalog_row(j).0[0]
            || catalog_row(i).0[1] != catalog_row(j).0[1] || catalog_row(i).0[2] != catalog_row(j).0[2]
            || catalog_row(i).0[5] != catalog_row(j).0[5] || catalog_row(i).0[7] != catalog_row(j).0[7]);
    }
    assert forall|i: int| #![trigger catalog_row(i)] 0 <= i < catalog_len() implies {
        let row = catalog_row(i);
        let kind = catalog_texts(i).1;
        &&& kind == "rental"@ || kind == "workspace"@ || kind == "sale"@
        &&& (kind == "workspace"@) == (row.6 == seq![FulfillmentMethod::OnSite])
        &&& row.6.len() > 0
        &&& row.6.no_duplicates()
        &&& row.6.contains(FulfillmentMethod::Delivery) == (row.4 > 0)
        &&& row.2 > 0
        &&& row.3 >= 0
        &&& trimmed(catalog_texts(i).9).len() > 0
    } by {
        let row = catalog_row(i);
        if row.6.len() > 1 {
            assert(row.6.len() != seq![FulfillmentMethod::OnSite].len());
        } else {
            assert(row.6 =~= seq![FulfillmentMethod::OnSite]);
        }
        assert(catalog_texts(i).1 == "workspace"@ <==> (7 <= i <= 9));
        if row.6.len() >= 2 && row.6[1] == FulfillmentMethod::Delivery {
            assert(row.6.contains(FulfillmentMethod::Delivery));
        }
        if row.6.len() >= 1 && row.6[0] == FulfillmentMethod::Delivery {
            assert(row.6.contains(FulfillmentMethod::Delivery));
        }
        if i == 0 {
            lemma_trimmed_unchanged(catalog_texts(i).9);
        } else if i == 1 {
            lemma_trimmed_unchanged(catalog_texts(i).9);
        } else if i == 2 {
            lemma_trimmed_unchanged(catalog_texts(i).9);
        } else if i == 3 {
            lemma_trimmed_unchanged(catalog_texts(i).9);
        } else if i == 4 {
            lemma_trimmed_unchanged(catalog_texts(i).9);
        } else if i == 5 {
            lemma_trimmed_unchanged(catalog_texts(i).9);
        } else if i == 6 {
            lemma_trimmed_unchanged(catalog_texts(i).9);
        } else if i == 7 {
            lemma_trimmed_unchanged(catalog_texts(i).9);
        } else if i == 8 {
            lemma_trimmed_unchanged(catalog_texts(i).9);
        } else if i == 9 {
            lemma_trimmed_unchanged(catalog_texts(i).9);
        } else if i == 10 {
            lemma_trimmed_unchanged(catalog_texts(i).9);
        } else if i == 11 {
            lemma_trimmed_unchanged(catalog_texts(i).9);
        }
    }
}

/// The first catalog row from `from` on whose id is `id`.
pub open spec fn catalog_index_from(id: Seq<char>, from: int) -> Option<int>
    decreases catalog_len() - from,
{
    if from < 0 || from >= catalog_len() {
        None
    } else if catalog_row(from).0 == id {
        Some(from)
    } else {
        catalog_index_from(id, from + 1)
    }
}

/// The catalog row whose id is `id`, if there is one.
pub open spec fn catalog_index(id: Seq<char>) -> Option<int> {
    catalog_index_from(id, 0)
}

proof fn lemma_catalog_index_from(id: Seq<char>, from: int)
    requires
        0 <= from <= catalog_len(),
    ensures
        match catalog_index_from(id, from) {
            Some(i) => from <= i < catalog_len() && catalog_row(i).0 == id,
            None => forall|j: int| from <= j < catalog_len() ==> catalog_row(j).0 != id,
        },
    decreases catalog_len() - from,
{
    if from < catalog_len() {
        lemma_catalog_index_from(id, from + 1);
    }
}

/// The catalog listing with id `id`, if there is one.
pub fn listing(id: &str) -> (found: Option<DemoListing>)
    ensures
        match catalog_index(id@) {
            Some(i) => found matches Some(l) && is_catalog_listing(l, i),
            None => found is None,
        },
{
    let mut catalog = listings();
    let mut i: usize = 0;
    while i < catalog.len()
        invariant
            catalog@.len() == catalog_len(),
            0 <= i <= catalog_len(),
            forall|k: int| 0 <= k < catalog_len() ==> is_catalog_listing(#[trigger] catalog@[k], k),
            catalog_index(id@) == catalog_index_from(id@, i as int),
        decreases catalog_len() - i,
    {
        if text_eq(catalog[i].id, id) {
            assert(catalog@[i as int].id@ == catalog_row(i as int).0);
            return Some(catalog.remove(i));
        }
        i = i + 1;
    }
    None
}

/// A request for a demo quote or order.
#[derive(Debug, Clone)]
pub struct QuoteRequest {
    pub listing_id: String,
    pub units: i64,
    pub fulfillment: FulfillmentMethod,
}

/// Demo quotes use the standard 6% service fee.
pub const DEMO_SERVICE_FEE_BPS: i64 = 600;

pub const NOT_FOUND: u16 = 404;

pub const UNPROCESSABLE_ENTITY: u16 = 422;

pub const CONFLICT: u16 = 409;

/// The pricing of catalog row `i` at the demo service fee.
pub open spec fn catalog_snapshot(i: int) -> PricingSnapshot {
    PricingSnapshot {
        unit_price_cents: catalog_row(i).2,
        deposit_cents: catalog_row(i).3,
        delivery_fee_cents: catalog_row(i).4,
        service_fee_bps: DEMO_SERVICE_FEE_BPS,
    }
}

/// The demo quote for `units` of listing `id` fulfilled by `method`, or the
/// HTTP status that refuses it: 404 for an unknown listing, 422 for a method
/// the listing does not offer or a quote that cannot be made.
pub open spec fn demo_quote_outcome(
    id: Seq<char>,
    units: i64,
    method: FulfillmentMethod,
    result: Result<QuoteBreakdown, u16>,
) -> bool {
    match catalog_index(id) {
        None => result == Err::<QuoteBreakdown, u16>(NOT_FOUND),
        Some(i) => {
            let input = QuoteInput { units, wants_delivery: method == FulfillmentMethod::Delivery };
            if !catalog_row(i).6.contains(method) || units <= 0 || has_negative_amount(
                catalog_snapshot(i),
            ) || !quote_fits(catalog_snapshot(i), input) {
                result == Err::<QuoteBreakdown, u16>(UNPROCESSABLE_ENTITY)
            } else {
                result matches Ok(q) && is_breakdown(q, catalog_snapshot(i), input)
            }
        },
    }
}

fn offers(methods: &Vec<FulfillmentMethod>, method: FulfillmentMethod) -> (found: bool)
    ensures
        found == methods@.contains(method),
{
    let mut i: usize = 0;
    while i < methods.len()
        invariant
            0 <= i <= methods@.len(),
            forall|k: int| 0 <= k < i ==> methods@[k] != method,
        decreases methods@.len() - i,
    {
        if methods[i] == method {
            assert(methods@[i as int] == method);
            return true;
        }
        i = i + 1;
    }
    false
}

/// Quotes a demo request against the catalog.
pub fn quote(request: &QuoteRequest) -> (result: Result<QuoteBreakdown, u16>)
    ensures
        demo_quote_outcome(request.listing_id@, request.units, request.fulfillment, result),
{
    let listing = match listing(request.listing_id.as_str()) {
        Some(l) => l,
        None => return Err(NOT_FOUND),
    };
    if !offers(&listing.fulfillment, request.fulfillment) {
        return Err(UNPROCESSABLE_ENTITY);
    }
    let snapshot = PricingSnapshot {
        unit_price_cents: listing.unit_price_cents,
        deposit_cents: listing.deposit_cents,
        delivery_fee_cents: listing.delivery_fee_cents,
        service_fee_bps: DEMO_SERVICE_FEE_BPS,
    };
    let input = QuoteInput {
        units: request.units,
        wants_delivery: request.fulfillment == FulfillmentMethod::Delivery,
    };
    match calculate_quote(snapshot, input) {
        Ok(q) => Ok(q),
        Err(_) => Err(UNPROCESSABLE_ENTITY),
    }
}

/// An order placed in the demo.
#[derive(Debug, Clone)]
pub struct DemoOrder {
    pub id: String,
    pub listing_id: String,
    pub listing_title: String,
    pub buyer_id: String,
    pub seller_id: String,
    pub state: OrderState,
    pub fulfillment: FulfillmentMethod,
    pub quote: QuoteBreakdown,
}

impl DemoOrder {
    /// A copy of this order.
    pub fn duplicate(&self) -> (copy: DemoOrder)
        ensures
            copy == *self,
    {
        DemoOrder {
            id: self.id.clone(),
            listing_id: self.listing_id.clone(),
            listing_title: self.listing_title.clone(),
            buyer_id: self.buyer_id.clone(),
            seller_id: self.seller_id.clone(),
            state: self.state,
            fulfillment: self.fulfillment,
            quote: self.quote.duplicate(),
        }
    }
}

/// Whether `persona` takes part in `order`, as its buyer or its seller.
pub open spec fn takes_part(order: DemoOrder, persona: Seq<char>) -> bool {
    order.buyer_id@ == persona || order.seller_id@ == persona
}

/// `order` with its state replaced by `state`.
pub open spec fn with_state(order: DemoOrder, state: OrderState) -> DemoOrder {
    DemoOrder { state, ..order }
}

/// The first order from `from` on whose id is `id`.
pub open spec fn order_index_from(orders: Seq<DemoOrder>, id: Seq<char>, from: int) -> Option<int>
    decreases orders.len() - from,
{
    if from < 0 || from >= orders.len() {
        None
    } else if orders[from].id@ == id {
        Some(from)
    } else {
        order_index_from(orders, id, from + 1)
    }
}

/// The book of demo orders, oldest first.
pub struct DemoOrderBook {
    pub orders: Vec<DemoOrder>,
}

impl DemoOrderBook {
    pub fn new() -> (book: DemoOrderBook)
        ensures
            book.orders@.len() == 0,
    {
        DemoOrderBook { orders: Vec::new() }
    }

    /// Places a demo order for the buyer persona; it awaits payment.
    pub fn create(&mut self, request: &QuoteRequest, order_id: String) -> (result: Result<
        DemoOrder,
        u16,
    >)
        ensures
            result matches Err(status) ==> demo_quote_outcome(
                request.listing_id@,
                request.units,
                request.fulfillment,
                Err(status),
            ),
            result matches Err(_) ==> final(self).orders@ == old(self).orders@,
            result matches Ok(o) ==> {
                &&& final(self).orders@ == old(self).orders@.push(o)
                &&& o.id == order_id
                &&& o.listing_id@ == request.listing_id@
                &&& o.buyer_id@ == "buyer-demo"@
                &&& o.seller_id@ == catalog_row(catalog_index(request.listing_id@)->0).1
                &&& o.state == OrderState::PendingPayment
                &&& o.fulfillment == request.fulfillment
                &&& demo_quote_outcome(
                    request.listing_id@,
                    request.units,
                    request.fulfillment,
                    Ok(o.quote),
                )
            },
    {
        let listing = match listing(request.listing_id.as_str()) {
            Some(l) => l,
            None => return Err(NOT_FOUND),
        };
        let quote = quote(request)?;
        proof {
            lemma_catalog_index_from(request.listing_id@, 0);
        }
        let order = DemoOrder {
            id: order_id,
            listing_id: text(listing.id),
            listing_title: text(listing.title),
            buyer_id: text("buyer-demo"),
            seller_id: text(listing.owner_id),
            state: OrderState::PendingPayment,
            fulfillment: request.fulfillment,
            quote,
        };
        let copy = order.duplicate();
        self.orders.push(order);
        Ok(copy)
    }

    /// The orders in which `persona` is the buyer or the seller, oldest first.
    pub fn visible_to(&self, persona: &str) -> (visible: Vec<DemoOrder>)
        ensures
            visible@ == self.orders@.filter(|o: DemoOrder| takes_part(o, persona@)),
    {
        let ghost pred = |o: DemoOrder| takes_part(o, persona@);
        let mut visible: Vec<DemoOrder> = Vec::new();
        let mut i: usize = 0;
        while i < self.orders.len()
            invariant
                0 <= i <= self.orders@.len(),
                pred == (|o: DemoOrder| takes_part(o, persona@)),
                visible@ == self.orders@.take(i as int).filter(pred),
            decreases self.orders@.len() - i,
        {
            let order = &self.orders[i];
            proof {
                reveal_with_fuel(Seq::<_>::filter, 1);
                assert(self.orders@.take(i + 1).drop_last() =~= self.orders@.take(i as int));
            }
            if text_eq(order.buyer_id.as_str(), persona) || text_eq(
                order.seller_id.as_str(),
                persona,
            ) {
                visible.push(order.duplicate());
            }
            i = i + 1;
        }
        assert(self.orders@.take(i as int) =~= self.orders@);
        visible
    }

    /// Applies an action to a demo order through the order state machine:
    /// 404 for an unknown order, 409 for an action its state does not allow.
    pub fn apply_action(&mut self, order_id: &str, action: OrderAction) -> (result: Result<
        DemoOrder,
        u16,
    >)
        ensures
            match order_index_from(old(self).orders@, order_id@, 0) {
                None => result == Err::<DemoOrder, u16>(NOT_FOUND) && final(self).orders@ == old(
                    self,
                ).orders@,
                Some(k) => match next_order_state(old(self).orders@[k].state, action) {
                    None => result == Err::<DemoOrder, u16>(CONFLICT) && final(self).orders@
                        == old(self).orders@,
                    Some(next) => result == Ok::<DemoOrder, u16>(
                        with_state(old(self).orders@[k], next),
                    ) && final(self).orders@ == old(self).orders@.update(
                        k,
                        with_state(old(self).orders@[k], next),
                    ),
                },
            },
    {
        let mut i: usize = 0;
        while i < self.orders.len()
            invariant
                0 <= i <= self.orders@.len(),
                self.orders@ == old(self).orders@,
                order_index_from(old(self).orders@, order_id@, 0) == order_index_from(
                    old(self).orders@,
                    order_id@,
                    i as int,
                ),
            decreases self.orders@.len() - i,
        {
            if text_eq(self.orders[i].id.as_str(), order_id) {
                let current = self.orders[i].state;
                let next = match current.transition(action) {
                    Ok(s) => s,
                    Err(_) => return Err(CONFLICT),
                };
                let mut updated = self.orders[i].duplicate();
                updated.state = next;
                let copy = updated.duplicate();
                self.orders.set(i, updated);
                return Ok(copy);
            }
            i = i + 1;
        }
        Err(NOT_FOUND)
    }

    /// Forgets every demo order.
    pub fn reset(&mut self)
        ensures
            final(self).orders@.len() == 0,
    {
        self.orders.clear();
    }
}

} // verus!
