use liquidity_watch::address::Address;
use liquidity_watch::alert::{alert, alert_message};
use liquidity_watch::config::{ConfigError, Environment};
use liquidity_watch::dex::Dex;
use liquidity_watch::helpers::token_amount;
use liquidity_watch::pair::Pair;
use liquidity_watch::token::Token;

fn addr(text: &str) -> Address {
    Address::parse(text).unwrap()
}

fn sample_pair(chain: &str) -> Pair {
    let dex = Dex::new(
        addr("0x5c69bee701ef814a2b6a3edd4b1652cb9cc5aa6f"),
        addr("0x7a250d5630b4cf539739df2c5dacb4c659f2488d"),
        String::from(chain),
        true,
        false,
    );
    let weth = Token::new(
        addr("0xc02aaa39b223fe8d0a0e5c4f27ead9083c756cc2"),
        Some(String::from("Wrapped Ether")),
        Some(String::from("WETH")),
        Some(18),
    )
    .unwrap();
    let usdc = Token::new(
        addr("0xa0b86991c6218b36c1d19d4a2e9eb0ce3606eb48"),
        Some(String::from("USD Coin")),
        Some(String::from("USDC")),
        Some(6),
    )
    .unwrap();
    Pair::new(addr("0xB4e16d0168e52d35CaCD2c6185b44281Ec28C9Dc"), weth, usdc, &dex)
}

fn setting(name: &str, value: &str) -> (String, String) {
    (String::from(name), String::from(value))
}

fn ethereum_env() -> Environment {
    Environment::new(vec![
        setting("DISCORD_WEBHOOK_ETHEREUM", "https://discord.example/api/webhooks/1/abc"),
        setting("ROLE_ID_ETHEREUM", "1234567890"),
        setting("DISCORD_WEBHOOK_BSC", "https://discord.example/api/webhooks/2/def"),
    ])
}

#[test]
fn alert_says_who_what_and_where() {
    let pair = sample_pair("ETHEREUM");
    let amount_in = token_amount(1_000_000_000_000_000_000, 18);
    let amount_out = token_amount(2_000_500_000, 6);
    let m = alert(&pair, amount_in, amount_out, &ethereum_env()).unwrap();
    assert_eq!(m.webhook, "https://discord.example/api/webhooks/1/abc");
    assert_eq!(m.content, "<@&1234567890>");
    assert_eq!(m.username, "Liquidity Alert Bot");
    assert_eq!(m.title, "Uniswap V2");
    assert_eq!(m.description, "Liquidity added on pair WETH/USDC");
    assert_eq!(m.fields.len(), 3);
    assert_eq!(m.fields[0].name, "AmountIn");
    assert_eq!(m.fields[0].value, "1 WETH");
    assert!(!m.fields[0].inline);
    assert_eq!(m.fields[1].name, "AmountOut");
    assert_eq!(m.fields[1].value, "2000.5 USDC");
    assert!(!m.fields[1].inline);
    assert_eq!(m.fields[2].name, "Chart");
    assert_eq!(
        m.fields[2].value,
        "https://dexscreener.com/ethereum/0xb4e16d0168e52d35cacd2c6185b44281ec28c9dc"
    );
    assert!(!m.fields[2].inline);
}

#[test]
fn alert_takes_the_chain_in_any_case() {
    let pair = sample_pair("Ethereum");
    let amount = token_amount(1, 0);
    let m = alert(&pair, amount, amount, &ethereum_env()).unwrap();
    assert_eq!(m.webhook, "https://discord.example/api/webhooks/1/abc");
    assert_eq!(
        m.fields[2].value,
        "https://dexscreener.com/ethereum/0xb4e16d0168e52d35cacd2c6185b44281ec28c9dc"
    );
}

#[test]
fn alert_for_an_unconfigured_chain_is_an_error() {
    let pair = sample_pair("FANTOM");
    let amount = token_amount(1, 0);
    assert_eq!(
        alert(&pair, amount, amount, &ethereum_env()).unwrap_err(),
        ConfigError::MissingWebhook
    );
    assert_eq!(
        alert(&pair, amount, amount, &Environment::new(Vec::new())).unwrap_err(),
        ConfigError::MissingWebhook
    );
}

#[test]
fn alert_without_an_audience_is_an_error() {
    let pair = sample_pair("BSC");
    let amount = token_amount(1, 0);
    assert_eq!(
        alert(&pair, amount, amount, &ethereum_env()).unwrap_err(),
        ConfigError::MissingRole
    );
}

#[test]
fn alert_message_is_made_of_what_it_is_given() {
    let pair = sample_pair("POLYGON");
    let m = alert_message(
        &pair,
        token_amount(5, 1),
        token_amount(0, 6),
        "https://hook.example",
        "42",
        "polygon",
    );
    assert_eq!(m.webhook, "https://hook.example");
    assert_eq!(m.content, "<@&42>");
    assert_eq!(m.fields[0].value, "0.5 WETH");
    assert_eq!(m.fields[1].value, "0 USDC");
    assert_eq!(
        m.fields[2].value,
        "https://dexscreener.com/polygon/0xb4e16d0168e52d35cacd2c6185b44281ec28c9dc"
    );
}
