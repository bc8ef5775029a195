use vstd::prelude::*;

verus! {

/// One unit of a denomination: its name, its power of ten relative to the
/// base unit, and other names for it.
#[derive(Clone, Debug, PartialEq, Eq)]
pub struct DenomUnit {
    pub denom: String,
    pub exponent: u32,
    pub aliases: Vec<String>,
}

/// What the bank module records of a denomination.
#[derive(Clone, Debug, PartialEq, Eq)]
pub struct DenomMetadata {
    pub description: String,
    pub denom_units: Vec<DenomUnit>,
    pub base: String,
    pub display: String,
    pub name: String,
    pub symbol: String,
    pub uri: String,
    pub uri_hash: String,
}

/// Whether sends of one denomination are enabled.
#[derive(Clone, Debug, PartialEq, Eq)]
pub struct SendEnabled {
    pub denom: String,
    pub enabled: bool,
}

/// The bank module's parameters.
#[derive(Clone, Debug, PartialEq, Eq)]
pub struct BankParams {
    pub send_enabled: Vec<SendEnabled>,
    pub default_send_enabled: bool,
}

pub type DenomUnitView = (Seq<char>, u32, Seq<Seq<char>>);

pub type MetadataView = (
    Seq<char>,
    Seq<DenomUnitView>,
    Seq<char>,
    Seq<char>,
    Seq<char>,
    Seq<char>,
    Seq<char>,
    Seq<char>,
);

pub type ParamsView = (Seq<(Seq<char>, bool)>, bool);

pub open spec fn strings_view(v: Seq<String>) -> Seq<Seq<char>> {
    v.map_values(|s: String| s@)
}

impl View for DenomUnit {
    type V = DenomUnitView;

    open spec fn view(&self) -> DenomUnitView {
        (self.denom@, self.exponent, strings_view(self.aliases@))
    }
}

impl View for DenomMetadata {
    type V = MetadataView;

    open spec fn view(&self) -> MetadataView {
        (
            self.description@,
            self.denom_units@.map_values(|u: DenomUnit| u@),
            self.base@,
            self.display@,
            self.name@,
            self.symbol@,
            self.uri@,
            self.uri_hash@,
        )
    }
}

impl View for BankParams {
    type V = ParamsView;

    open spec fn view(&self) -> ParamsView {
        (
            self.send_enabled@.map_values(|e: SendEnabled| (e.denom@, e.enabled)),
            self.default_send_enabled,
        )
    }
}

pub open spec fn opt_metadata(m: Option<DenomMetadata>) -> Option<MetadataView> {
    match m {
        Some(x) => Some(x@),
        None => None,
    }
}

pub open spec fn metadata_list(v: Seq<DenomMetadata>) -> Seq<MetadataView> {
    v.map_values(|m: DenomMetadata| m@)
}

pub open spec fn opt_params(p: Option<BankParams>) -> Option<ParamsView> {
    match p {
        Some(x) => Some(x@),
        None => None,
    }
}

} // verus!
