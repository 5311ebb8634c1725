use vstd::prelude::*;
use crate::decimal::Decimal;
use crate::growth::Growth;

verus! {

/// What is known of a holding: what it is, where it is held, how many units
/// there are, what one unit is worth in USD, and how it grows in a year.
pub struct AssetModel {
    pub name: Seq<char>,
    pub description: Seq<char>,
    pub units: Decimal,
    pub unit_price: Decimal,
    pub nominal_growth: Decimal,
}

/// What every source of valuations reports of a holding.
pub trait Asset: Send {
    /// The holding that this value describes.
    spec fn model(&self) -> AssetModel;

    /// How the holding grows in a year.
    fn get_growth(&self) -> (growth: Growth)
        ensures
            growth.nominal() == self.model().nominal_growth,
            growth.inflation() is None,
    ;

    /// The name of what is held.
    fn get_name(&self) -> (name: String)
        ensures
            name@ == self.model().name,
    ;

    /// The price of one unit in USD.
    fn get_unit_price(&self) -> (price: Decimal)
        ensures
            price == self.model().unit_price,
    ;

    /// How many units are held.
    fn get_units(&self) -> (units: Decimal)
        ensures
            units == self.model().units,
    ;

    /// Where the holding is kept.
    fn get_description(&self) -> (description: String)
        ensures
            description@ == self.model().description,
    ;
}

/// The holdings that a list of assets describes, in order.
pub open spec fn models<A: Asset>(assets: Seq<A>) -> Seq<AssetModel> {
    Seq::new(assets.len(), |i: int| assets[i].model())
}

/// A balance at an exchange, a bank or a broker.
pub struct GenericAsset {
    apy: Decimal,
    trading_symbol: String,
    description: String,
    units: Decimal,
    unit_price: Decimal,
}

impl GenericAsset {
    /// A balance of `units` of the asset `trading_symbol`, each worth
    /// `unit_price`, that grows by `apy` in a year.
    pub fn new(
        apy: Decimal,
        trading_symbol: String,
        description: String,
        units: Decimal,
        unit_price: Decimal,
    ) -> (asset: GenericAsset)
        ensures
            asset.model() == (AssetModel {
                name: trading_symbol@,
                description: description@,
                units,
                unit_price,
                nominal_growth: apy,
            }),
    {
        GenericAsset { apy, trading_symbol, description, units, unit_price }
    }
}

impl Clone for GenericAsset {
    fn clone(&self) -> (copy: GenericAsset)
        ensures
            copy.model() == self.model(),
    {
        GenericAsset {
            apy: self.apy,
            trading_symbol: self.trading_symbol.clone(),
            description: self.description.clone(),
            units: self.units,
            unit_price: self.unit_price,
        }
    }
}

impl Asset for GenericAsset {
    closed spec fn model(&self) -> AssetModel {
        AssetModel {
            name: self.trading_symbol@,
            description: self.description@,
            units: self.units,
            unit_price: self.unit_price,
            nominal_growth: self.apy,
        }
    }

    fn get_growth(&self) -> (growth: Growth) {
        Growth::new(self.apy)
    }

    fn get_name(&self) -> (name: String) {
        self.trading_symbol.clone()
    }

    fn get_unit_price(&self) -> (price: Decimal) {
        self.unit_price
    }

    fn get_units(&self) -> (units: Decimal) {
        self.units
    }

    fn get_description(&self) -> (description: String) {
        self.description.clone()
    }
}

} // verus!
