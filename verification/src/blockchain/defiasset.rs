use vstd::prelude::*;
use crate::asset::{Asset, AssetModel};
use crate::decimal::Decimal;
use crate::growth::Growth;

verus! {

/// A position in a lending or yield protocol, or a coin held in a wallet.
pub struct DefiAsset {
    apy: Decimal,
    underlaying_token_name: String,
    token_equivalent: Decimal,
    token_price: Decimal,
    description: String,
}

impl DefiAsset {
    /// A position worth `token_equivalent` units of the underlying token,
    /// each worth `token_price`, that grows by `apy` in a year.
    pub fn new(
        apy: Decimal,
        underlaying_token_name: String,
        token_equivalent: Decimal,
        token_price: Decimal,
        description: String,
    ) -> (asset: DefiAsset)
        ensures
            asset.model() == (AssetModel {
                name: underlaying_token_name@,
                description: description@,
                units: token_equivalent,
                unit_price: token_price,
                nominal_growth: apy,
            }),
    {
        DefiAsset { apy, underlaying_token_name, token_equivalent, token_price, description }
    }
}

impl Clone for DefiAsset {
    fn clone(&self) -> (copy: DefiAsset)
        ensures
            copy.model() == self.model(),
    {
        DefiAsset {
            apy: self.apy,
            underlaying_token_name: self.underlaying_token_name.clone(),
            token_equivalent: self.token_equivalent,
            token_price: self.token_price,
            description: self.description.clone(),
        }
    }
}

impl Asset for DefiAsset {
    closed spec fn model(&self) -> AssetModel {
        AssetModel {
            name: self.underlaying_token_name@,
            description: self.description@,
            units: self.token_equivalent,
            unit_price: self.token_price,
            nominal_growth: self.apy,
        }
    }

    fn get_growth(&self) -> (growth: Growth) {
        Growth::new(self.apy)
    }

    fn get_name(&self) -> (name: String) {
        self.underlaying_token_name.clone()
    }

    fn get_unit_price(&self) -> (price: Decimal) {
        self.token_price
    }

    fn get_units(&self) -> (units: Decimal) {
        self.token_equivalent
    }

    fn get_description(&self) -> (description: String) {
        self.description.clone()
    }
}

/// The holdings that a list of positions describes, in order.
pub open spec fn models_of(assets: Seq<DefiAsset>) -> Seq<AssetModel> {
    Seq::new(assets.len(), |i: int| assets[i].model())
}

} // verus!
