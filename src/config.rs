use vstd::prelude::*;

verus! {

/// The gas price that a configuration gets when its file names none.
pub const DEFAULT_GAS_PRICE: u64 = 200_000_000;

/// The default for the optional `gas_price` field of the `bot` section.
pub fn default_gas_price() -> (r: u64)
    ensures
        r == DEFAULT_GAS_PRICE,
{
    DEFAULT_GAS_PRICE
}

/// The `bot` section of a configuration file.
#[derive(Debug)]
pub struct BotConfig {
    pub name: String,
    pub rpc_url: Option<String>,
    pub gas_price: u64,
}

/// One complete configuration snapshot. It is replaced as a whole and never
/// changed in place.
#[derive(Debug)]
pub struct Config {
    pub bot: BotConfig,
}

/// The mathematical value of a configuration: its fields as sequences of
/// characters and integers.
pub struct BotConfigView {
    pub name: Seq<char>,
    pub rpc_url: Option<Seq<char>>,
    pub gas_price: u64,
}

pub open spec fn text_of(s: Option<String>) -> Option<Seq<char>> {
    match s {
        Some(t) => Some(t@),
        None => None,
    }
}

/// The gas price that a file yields: the one it gives, else the default.
pub open spec fn gas_price_or_default(g: Option<u64>) -> u64 {
    match g {
        Some(v) => v,
        None => DEFAULT_GAS_PRICE,
    }
}

impl View for BotConfig {
    type V = BotConfigView;

    open spec fn view(&self) -> BotConfigView {
        BotConfigView { name: self.name@, rpc_url: text_of(self.rpc_url), gas_price: self.gas_price }
    }
}

impl View for Config {
    type V = BotConfigView;

    open spec fn view(&self) -> BotConfigView {
        self.bot@
    }
}

fn copy_text(s: &Option<String>) -> (r: Option<String>)
    ensures
        r == *s,
{
    match s {
        Some(t) => Some(t.clone()),
        None => None,
    }
}

impl BotConfig {
    /// Builds the `bot` section from the fields a file holds; a missing gas
    /// price takes the default.
    pub fn from_fields(name: String, rpc_url: Option<String>, gas_price: Option<u64>) -> (r: BotConfig)
        ensures
            r@.name == name@,
            r@.rpc_url == text_of(rpc_url),
            r@.gas_price == gas_price_or_default(gas_price),
    {
        let g: u64 = match gas_price {
            Some(v) => v,
            None => default_gas_price(),
        };
        BotConfig { name, rpc_url, gas_price: g }
    }

    /// A field-for-field copy.
    pub fn duplicate(&self) -> (r: BotConfig)
        ensures
            r == *self,
            r@ == self@,
    {
        BotConfig { name: self.name.clone(), rpc_url: copy_text(&self.rpc_url), gas_price: self.gas_price }
    }
}

impl Config {
    /// Builds a configuration from the fields of its `bot` section; a missing
    /// gas price takes the default.
    pub fn from_fields(name: String, rpc_url: Option<String>, gas_price: Option<u64>) -> (r: Config)
        ensures
            r@.name == name@,
            r@.rpc_url == text_of(rpc_url),
            r@.gas_price == gas_price_or_default(gas_price),
    {
        Config { bot: BotConfig::from_fields(name, rpc_url, gas_price) }
    }

    /// A field-for-field copy.
    pub fn duplicate(&self) -> (r: Config)
        ensures
            r == *self,
            r@ == self@,
    {
        Config { bot: self.bot.duplicate() }
    }

    pub fn name(&self) -> (r: &str)
        ensures
            r@ == self@.name,
    {
        self.bot.name.as_str()
    }

    pub fn gas_price(&self) -> (r: u64)
        ensures
            r == self@.gas_price,
    {
        self.bot.gas_price
    }
}

} // verus!
