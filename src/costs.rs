use vstd::prelude::*;
use crate::runner::{db_provider_name_of, LanguageModelProvider};
use crate::strings::str_eq;

verus! {

/// Token counts of a request's input, priced per category.
#[derive(Debug, Clone, Copy, PartialEq, Eq, Structural)]
pub struct InputTokens {
    pub regular_input_tokens: u32,
    pub cache_write_tokens: u32,
    pub cache_read_tokens: u32,
}

/// Per-token rates for one (provider, model) pair, in the pricing source's
/// smallest money unit. The input and output rates may each be missing.
#[derive(Debug, Clone, Copy, PartialEq, Eq, Structural)]
pub struct PriceRow {
    pub input_rate: Option<u64>,
    pub output_rate: Option<u64>,
    pub cache_write_rate: u64,
    pub cache_read_rate: u64,
}

/// The cost of a request's input under a row: each category at its own rate.
pub open spec fn input_cost_of(row: PriceRow, t: InputTokens) -> Option<int> {
    match row.input_rate {
        Some(rate) => Some(
            t.regular_input_tokens * rate + t.cache_write_tokens * row.cache_write_rate
                + t.cache_read_tokens * row.cache_read_rate,
        ),
        None => None,
    }
}

/// The cost of a request's output under a row.
pub open spec fn output_cost_of(row: PriceRow, output_tokens: u32) -> Option<int> {
    match row.output_rate {
        Some(rate) => Some(output_tokens * rate),
        None => None,
    }
}

/// The input cost under a price that may be missing.
pub open spec fn estimated_input(price: Option<PriceRow>, t: InputTokens) -> Option<int> {
    match price {
        Some(row) => input_cost_of(row, t),
        None => None,
    }
}

/// The output cost under a price that may be missing.
pub open spec fn estimated_output(price: Option<PriceRow>, output_tokens: u32) -> Option<int> {
    match price {
        Some(row) => output_cost_of(row, output_tokens),
        None => None,
    }
}

/// The total cost: absent whenever the input cost is absent, whatever the
/// output cost is; otherwise the sum, if the output cost is known too.
pub open spec fn estimated_total(price: Option<PriceRow>, t: InputTokens, output_tokens: u32) -> Option<int> {
    match estimated_input(price, t) {
        None => None,
        Some(i) => match estimated_output(price, output_tokens) {
            None => None,
            Some(o) => Some(i + o),
        },
    }
}

/// An optional money amount as a mathematical integer.
pub open spec fn amount(v: Option<u128>) -> Option<int> {
    match v {
        Some(x) => Some(x as int),
        None => None,
    }
}

proof fn lemma_product_bound(x: u32, y: u64)
    ensures
        0 <= (x as int) * (y as int) <= 0xffff_ffff * 0xffff_ffff_ffff_ffff,
{
    assert(0 <= (x as int) * (y as int) <= 0xffff_ffff * 0xffff_ffff_ffff_ffff) by (nonlinear_arith)
        requires
            x <= 0xffff_ffff,
            y <= 0xffff_ffff_ffff_ffff,
    ;
}

/// The input cost of `tokens` under `row`.
pub fn input_cost(row: &PriceRow, tokens: &InputTokens) -> (r: Option<u128>)
    ensures
        amount(r) == input_cost_of(*row, *tokens),
{
    match row.input_rate {
        Some(rate) => {
            proof {
                lemma_product_bound(tokens.regular_input_tokens, rate);
                lemma_product_bound(tokens.cache_write_tokens, row.cache_write_rate);
                lemma_product_bound(tokens.cache_read_tokens, row.cache_read_rate);
            }
            let regular = tokens.regular_input_tokens as u128 * rate as u128;
            let write = tokens.cache_write_tokens as u128 * row.cache_write_rate as u128;
            let read = tokens.cache_read_tokens as u128 * row.cache_read_rate as u128;
            Some(regular + write + read)
        },
        None => None,
    }
}

/// The output cost of `output_tokens` under `row`.
pub fn output_cost(row: &PriceRow, output_tokens: u32) -> (r: Option<u128>)
    ensures
        amount(r) == output_cost_of(*row, output_tokens),
{
    match row.output_rate {
        Some(rate) => {
            proof {
                lemma_product_bound(output_tokens, rate);
            }
            Some(output_tokens as u128 * rate as u128)
        },
        None => None,
    }
}

/// One stored price.
#[derive(Debug, Clone)]
pub struct PriceEntry {
    pub provider: String,
    pub model: String,
    pub row: PriceRow,
}

/// The price stored for (provider, model): a later entry replaces an earlier one.
pub open spec fn price_in(entries: Seq<PriceEntry>, provider: Seq<char>, model: Seq<char>) -> Option<PriceRow>
    decreases entries.len(),
{
    if entries.len() == 0 {
        None
    } else if entries.last().provider@ == provider && entries.last().model@ == model {
        Some(entries.last().row)
    } else {
        price_in(entries.drop_last(), provider, model)
    }
}

/// A table of prices keyed by provider and model.
pub struct PriceTable {
    entries: Vec<PriceEntry>,
}

impl PriceTable {
    /// The price on file for (provider, model), if any.
    pub closed spec fn price_of(&self, provider: Seq<char>, model: Seq<char>) -> Option<PriceRow> {
        price_in(self.entries@, provider, model)
    }

    /// A table with no prices.
    pub fn new() -> (r: PriceTable)
        ensures
            forall|p: Seq<char>, m: Seq<char>| r.price_of(p, m) is None,
    {
        PriceTable { entries: Vec::new() }
    }

    /// Records `row` as the price of (provider, model).
    pub fn insert(&mut self, provider: String, model: String, row: PriceRow)
        ensures
            final(self).price_of(provider@, model@) == Some(row),
            forall|p: Seq<char>, m: Seq<char>|
                !(p == provider@ && m == model@) ==> #[trigger] final(self).price_of(p, m) == old(self).price_of(p, m),
    {
        let ghost before = self.entries@;
        let ghost p0 = provider@;
        let ghost m0 = model@;
        self.entries.push(PriceEntry { provider, model, row });
        assert(self.entries@.drop_last() =~= before);
        assert(self.entries@.last().provider@ == p0 && self.entries@.last().model@ == m0);
    }

    /// The price on file for (provider, model), if any.
    pub fn get(&self, provider: &str, model: &str) -> (r: Option<PriceRow>)
        ensures
            r == self.price_of(provider@, model@),
    {
        let mut i: usize = self.entries.len();
        assert(self.entries@.subrange(0, i as int) =~= self.entries@);
        while i > 0
            invariant
                i <= self.entries@.len(),
                price_in(self.entries@, provider@, model@) == price_in(
                    self.entries@.subrange(0, i as int),
                    provider@,
                    model@,
                ),
            decreases i,
        {
            let ghost prefix = self.entries@.subrange(0, i as int);
            assert(prefix.drop_last() =~= self.entries@.subrange(0, i - 1));
            let e = &self.entries[i - 1];
            if str_eq(e.provider.as_str(), provider) && str_eq(e.model.as_str(), model) {
                return Some(e.row);
            }
            i = i - 1;
        }
        None
    }
}

/// Prices looked up cache first, with a durable store behind the cache.
pub struct PricingSource {
    cache: PriceTable,
    store: PriceTable,
}

impl PricingSource {
    /// The price the cache holds for (provider, model).
    pub closed spec fn cached(&self, provider: Seq<char>, model: Seq<char>) -> Option<PriceRow> {
        self.cache.price_of(provider, model)
    }

    /// The price the store holds for (provider, model).
    pub closed spec fn stored(&self, provider: Seq<char>, model: Seq<char>) -> Option<PriceRow> {
        self.store.price_of(provider, model)
    }

    /// The price a lookup of (provider, model) gives: the cached one if there
    /// is one, else the stored one.
    pub open spec fn price(&self, provider: Seq<char>, model: Seq<char>) -> Option<PriceRow> {
        match self.cached(provider, model) {
            Some(row) => Some(row),
            None => self.stored(provider, model),
        }
    }

    /// A source over `store` with an empty cache.
    pub fn new(store: PriceTable) -> (r: PricingSource)
        ensures
            forall|p: Seq<char>, m: Seq<char>| #[trigger] r.cached(p, m) is None,
            forall|p: Seq<char>, m: Seq<char>| #[trigger] r.stored(p, m) == store.price_of(p, m),
    {
        PricingSource { cache: PriceTable::new(), store }
    }

    /// Looks (provider, model) up in the cache; on a miss, reads the store and
    /// fills the cache with what it found. A store miss gives `None`.
    pub fn get_price(&mut self, provider: &str, model: &str) -> (r: Option<PriceRow>)
        ensures
            r == old(self).price(provider@, model@),
            forall|p: Seq<char>, m: Seq<char>| #[trigger] final(self).stored(p, m) == old(self).stored(p, m),
            forall|p: Seq<char>, m: Seq<char>| #[trigger] final(self).price(p, m) == old(self).price(p, m),
            final(self).cached(provider@, model@) == r,
            forall|p: Seq<char>, m: Seq<char>|
                !(p == provider@ && m == model@) ==> #[trigger] final(self).cached(p, m) == old(self).cached(p, m),
    {
        match self.cache.get(provider, model) {
            Some(row) => Some(row),
            None => {
                let found = self.store.get(provider, model);
                match found {
                    Some(row) => {
                        self.cache.insert(provider.to_owned(), model.to_owned(), row);
                        Some(row)
                    },
                    None => None,
                }
            },
        }
    }
}

impl LanguageModelProvider {
    /// The cost of a request's input for `model`, each token category at its
    /// own rate; absent when no input price is on file.
    pub fn estimate_input_cost(&self, pricing: &mut PricingSource, model: &str, input_tokens: InputTokens) -> (r: Option<u128>)
        ensures
            amount(r) == estimated_input(old(pricing).price(db_provider_name_of(*self), model@), input_tokens),
            forall|p: Seq<char>, m: Seq<char>| #[trigger] final(pricing).price(p, m) == old(pricing).price(p, m),
            forall|p: Seq<char>, m: Seq<char>| #[trigger] final(pricing).stored(p, m) == old(pricing).stored(p, m),
    {
        match pricing.get_price(self.db_provider_name(), model) {
            Some(row) => input_cost(&row, &input_tokens),
            None => None,
        }
    }

    /// The cost of a request's output for `model`; absent when no output
    /// price is on file.
    pub fn estimate_output_cost(&self, pricing: &mut PricingSource, model: &str, output_tokens: u32) -> (r: Option<u128>)
        ensures
            amount(r) == estimated_output(old(pricing).price(db_provider_name_of(*self), model@), output_tokens),
            forall|p: Seq<char>, m: Seq<char>| #[trigger] final(pricing).price(p, m) == old(pricing).price(p, m),
            forall|p: Seq<char>, m: Seq<char>| #[trigger] final(pricing).stored(p, m) == old(pricing).stored(p, m),
    {
        match pricing.get_price(self.db_provider_name(), model) {
            Some(row) => output_cost(&row, output_tokens),
            None => None,
        }
    }

    /// The total cost of a request for `model`: absent when the input price
    /// is missing, even where an output price is on file.
    pub fn estimate_cost(
        &self,
        pricing: &mut PricingSource,
        model: &str,
        input_tokens: InputTokens,
        output_tokens: u32,
    ) -> (r: Option<u128>)
        ensures
            amount(r) == estimated_total(
                old(pricing).price(db_provider_name_of(*self), model@),
                input_tokens,
                output_tokens,
            ),
            forall|p: Seq<char>, m: Seq<char>| #[trigger] final(pricing).price(p, m) == old(pricing).price(p, m),
            forall|p: Seq<char>, m: Seq<char>| #[trigger] final(pricing).stored(p, m) == old(pricing).stored(p, m),
    {
        let input = match self.estimate_input_cost(pricing, model, input_tokens) {
            Some(c) => c,
            None => {
                return None;
            },
        };
        let output = match self.estimate_output_cost(pricing, model, output_tokens) {
            Some(c) => c,
            None => {
                return None;
            },
        };
        proof {
            let price = old(pricing).price(db_provider_name_of(*self), model@);
            let row = price->Some_0;
            lemma_product_bound(input_tokens.regular_input_tokens, row.input_rate->Some_0);
            lemma_product_bound(input_tokens.cache_write_tokens, row.cache_write_rate);
            lemma_product_bound(input_tokens.cache_read_tokens, row.cache_read_rate);
            lemma_product_bound(output_tokens, row.output_rate->Some_0);
        }
        Some(input + output)
    }
}

/// A missing input price leaves the whole estimate absent, whatever the
/// output tokens and the output price are.
pub proof fn lemma_missing_input_price_suppresses_total(price: Option<PriceRow>, t: InputTokens, output_tokens: u32)
    requires
        estimated_input(price, t) is None,
    ensures
        estimated_total(price, t, output_tokens) is None,
{
}

/// With both rates on file, regular input tokens and output tokens cost their
/// count times their rate, and the total is the sum of the two.
pub proof fn lemma_total_with_full_prices(
    input_rate: u64,
    output_rate: u64,
    cache_write_rate: u64,
    cache_read_rate: u64,
    regular: u32,
    output_tokens: u32,
)
    ensures
        estimated_total(
            Some(
                (PriceRow {
                    input_rate: Some(input_rate),
                    output_rate: Some(output_rate),
                    cache_write_rate,
                    cache_read_rate,
                }),
            ),
            (InputTokens { regular_input_tokens: regular, cache_write_tokens: 0, cache_read_tokens: 0 }),
            output_tokens,
        ) == Some(regular * input_rate + output_tokens * output_rate),
{
}

} // verus!
