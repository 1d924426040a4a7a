use lm_runner::costs::{input_cost, output_cost, InputTokens, PriceRow, PriceTable, PricingSource};
use lm_runner::runner::LanguageModelProvider;

fn regular(n: u32) -> InputTokens {
    InputTokens { regular_input_tokens: n, cache_write_tokens: 0, cache_read_tokens: 0 }
}

fn full(input: u64, output: u64) -> PriceRow {
    PriceRow { input_rate: Some(input), output_rate: Some(output), cache_write_rate: 0, cache_read_rate: 0 }
}

#[test]
fn missing_input_price_suppresses_estimate() {
    let mut store = PriceTable::new();
    store.insert(
        "openai".to_string(),
        "gpt-4".to_string(),
        PriceRow { input_rate: None, output_rate: Some(7), cache_write_rate: 0, cache_read_rate: 0 },
    );
    let mut pricing = PricingSource::new(store);
    let e = LanguageModelProvider::OpenAI;
    assert_eq!(e.estimate_output_cost(&mut pricing, "gpt-4", 50), Some(350));
    assert_eq!(e.estimate_input_cost(&mut pricing, "gpt-4", regular(100)), None);
    assert_eq!(e.estimate_cost(&mut pricing, "gpt-4", regular(100), 50), None);
}

#[test]
fn only_input_price_gives_no_estimate() {
    let mut store = PriceTable::new();
    store.insert(
        "anthropic".to_string(),
        "haiku".to_string(),
        PriceRow { input_rate: Some(3), output_rate: None, cache_write_rate: 0, cache_read_rate: 0 },
    );
    let mut pricing = PricingSource::new(store);
    let e = LanguageModelProvider::Anthropic;
    assert_eq!(e.estimate_input_cost(&mut pricing, "haiku", regular(100)), Some(300));
    assert_eq!(e.estimate_cost(&mut pricing, "haiku", regular(100), 50), None);
}

#[test]
fn full_prices_give_exact_sum() {
    let mut store = PriceTable::new();
    store.insert("groq".to_string(), "llama".to_string(), full(3, 15));
    let mut pricing = PricingSource::new(store);
    let e = LanguageModelProvider::Groq;
    assert_eq!(e.estimate_cost(&mut pricing, "llama", regular(100), 50), Some(100 * 3 + 50 * 15));
}

#[test]
fn unpriced_model_is_absent() {
    let mut pricing = PricingSource::new(PriceTable::new());
    let e = LanguageModelProvider::Gemini;
    assert_eq!(e.estimate_cost(&mut pricing, "gemini-pro", regular(1), 1), None);
    assert_eq!(e.estimate_output_cost(&mut pricing, "gemini-pro", 1), None);
}

#[test]
fn price_key_is_provider_specific() {
    let mut store = PriceTable::new();
    store.insert("mistral".to_string(), "m".to_string(), full(1, 1));
    let mut pricing = PricingSource::new(store);
    assert_eq!(LanguageModelProvider::Groq.estimate_cost(&mut pricing, "m", regular(1), 1), None);
    assert_eq!(LanguageModelProvider::Mistral.estimate_cost(&mut pricing, "m", regular(1), 1), Some(2));
}

#[test]
fn cache_categories_priced_independently() {
    let row = PriceRow { input_rate: Some(10), output_rate: Some(20), cache_write_rate: 12, cache_read_rate: 1 };
    let t = InputTokens { regular_input_tokens: 100, cache_write_tokens: 10, cache_read_tokens: 1000 };
    assert_eq!(input_cost(&row, &t), Some(100 * 10 + 10 * 12 + 1000));
    assert_eq!(output_cost(&row, 3), Some(60));
}

#[test]
fn largest_counts_do_not_overflow() {
    let row = PriceRow {
        input_rate: Some(u64::MAX),
        output_rate: Some(u64::MAX),
        cache_write_rate: u64::MAX,
        cache_read_rate: u64::MAX,
    };
    let t = InputTokens { regular_input_tokens: u32::MAX, cache_write_tokens: u32::MAX, cache_read_tokens: u32::MAX };
    let one = u32::MAX as u128 * u64::MAX as u128;
    assert_eq!(input_cost(&row, &t), Some(3 * one));
    assert_eq!(output_cost(&row, u32::MAX), Some(one));
}

#[test]
fn cache_is_consulted_first_and_filled_from_store() {
    let mut store = PriceTable::new();
    store.insert("openai".to_string(), "a".to_string(), full(2, 4));
    let mut pricing = PricingSource::new(store);
    assert_eq!(pricing.get_price("openai", "a"), Some(full(2, 4)));
    assert_eq!(pricing.get_price("openai", "a"), Some(full(2, 4)));
    assert_eq!(pricing.get_price("openai", "b"), None);
}

#[test]
fn price_table_later_entry_wins() {
    let mut t = PriceTable::new();
    t.insert("p".to_string(), "m".to_string(), full(1, 1));
    t.insert("p".to_string(), "m".to_string(), full(5, 6));
    t.insert("p".to_string(), "n".to_string(), full(7, 8));
    assert_eq!(t.get("p", "m"), Some(full(5, 6)));
    assert_eq!(t.get("p", "n"), Some(full(7, 8)));
    assert_eq!(t.get("q", "m"), None);
}
