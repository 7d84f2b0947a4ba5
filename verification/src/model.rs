//! The catalog item shapes: furniture items (chairs) and rental listings
//! (estates), with their mathematical views.
//!
//! A listing's geographic point is carried as the decimal text of its two
//! components, exactly as the storage edge hands it over; the core never
//! does arithmetic on coordinates, it only embeds them verbatim in a
//! polygon ring.

use vstd::prelude::*;

verus! {

/// A furniture item.  `popularity` and `stock` are server-internal and
/// never serialized to clients.
pub struct Chair {
    pub id: i64,
    pub name: String,
    pub description: String,
    pub thumbnail: String,
    pub price: i64,
    pub height: i64,
    pub width: i64,
    pub depth: i64,
    pub color: String,
    pub features: String,
    pub kind: String,
    pub popularity: i64,
    pub stock: i64,
}

/// Mathematical view of a furniture item.
pub ghost struct ChairModel {
    pub id: int,
    pub name: Seq<char>,
    pub description: Seq<char>,
    pub thumbnail: Seq<char>,
    pub price: int,
    pub height: int,
    pub width: int,
    pub depth: int,
    pub color: Seq<char>,
    pub features: Seq<char>,
    pub kind: Seq<char>,
    pub popularity: int,
    pub stock: int,
}

impl View for Chair {
    type V = ChairModel;

    open spec fn view(&self) -> ChairModel {
        ChairModel {
            id: self.id as int,
            name: self.name@,
            description: self.description@,
            thumbnail: self.thumbnail@,
            price: self.price as int,
            height: self.height as int,
            width: self.width as int,
            depth: self.depth as int,
            color: self.color@,
            features: self.features@,
            kind: self.kind@,
            popularity: self.popularity as int,
            stock: self.stock as int,
        }
    }
}

impl DeepView for Chair {
    type V = ChairModel;

    open spec fn deep_view(&self) -> ChairModel {
        self.view()
    }
}

impl Clone for Chair {
    /// A clone carries the same view.
    fn clone(&self) -> (r: Self)
        ensures
            r@ == self@,
    {
        Chair {
            id: self.id,
            name: self.name.clone(),
            description: self.description.clone(),
            thumbnail: self.thumbnail.clone(),
            price: self.price,
            height: self.height,
            width: self.width,
            depth: self.depth,
            color: self.color.clone(),
            features: self.features.clone(),
            kind: self.kind.clone(),
            popularity: self.popularity,
            stock: self.stock,
        }
    }
}

/// A rental listing.  `popularity` is server-internal.  The geographic
/// point is kept as decimal text (`latitude`, `longitude`).
pub struct Estate {
    pub id: i64,
    pub name: String,
    pub description: String,
    pub thumbnail: String,
    pub address: String,
    pub latitude: String,
    pub longitude: String,
    pub rent: i64,
    pub door_height: i64,
    pub door_width: i64,
    pub features: String,
    pub popularity: i64,
}

/// Mathematical view of a rental listing.
pub ghost struct EstateModel {
    pub id: int,
    pub name: Seq<char>,
    pub description: Seq<char>,
    pub thumbnail: Seq<char>,
    pub address: Seq<char>,
    pub latitude: Seq<char>,
    pub longitude: Seq<char>,
    pub rent: int,
    pub door_height: int,
    pub door_width: int,
    pub features: Seq<char>,
    pub popularity: int,
}

impl View for Estate {
    type V = EstateModel;

    open spec fn view(&self) -> EstateModel {
        EstateModel {
            id: self.id as int,
            name: self.name@,
            description: self.description@,
            thumbnail: self.thumbnail@,
            address: self.address@,
            latitude: self.latitude@,
            longitude: self.longitude@,
            rent: self.rent as int,
            door_height: self.door_height as int,
            door_width: self.door_width as int,
            features: self.features@,
            popularity: self.popularity as int,
        }
    }
}

impl DeepView for Estate {
    type V = EstateModel;

    open spec fn deep_view(&self) -> EstateModel {
        self.view()
    }
}

impl Clone for Estate {
    /// A clone carries the same view.
    fn clone(&self) -> (r: Self)
        ensures
            r@ == self@,
    {
        Estate {
            id: self.id,
            name: self.name.clone(),
            description: self.description.clone(),
            thumbnail: self.thumbnail.clone(),
            address: self.address.clone(),
            latitude: self.latitude.clone(),
            longitude: self.longitude.clone(),
            rent: self.rent,
            door_height: self.door_height,
            door_width: self.door_width,
            features: self.features.clone(),
            popularity: self.popularity,
        }
    }
}

} // verus!
