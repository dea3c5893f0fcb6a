//! The alert for a pair's first liquidity: where it goes and what it says.

use crate::address::lower_hex;
use crate::config::{joined, ConfigError, Environment};
use crate::helpers::Amount;
use crate::pair::Pair;
use crate::text::{lowercase_of, uppercase_of};
use vstd::prelude::*;
use vstd::string::*;

verus! {

/// One titled line of an alert.
#[derive(Debug)]
pub struct AlertField {
    pub name: String,
    pub value: String,
    pub inline: bool,
}

/// An alert, ready to be sent.
#[derive(Debug)]
pub struct AlertMessage {
    /// The endpoint to post the alert to.
    pub webhook: String,
    /// The text above the card: the mention of the audience.
    pub content: String,
    /// The name the alert is posted under.
    pub username: String,
    /// The card's title: the exchange.
    pub title: String,
    /// The card's text: the pair.
    pub description: String,
    /// The card's lines: the two amounts and the chart.
    pub fields: Vec<AlertField>,
}

/// The name of the setting that holds a chain's alert endpoint, by the chain's name in
/// upper case.
pub open spec fn webhook_setting(chain: Seq<char>) -> Seq<char> {
    "DISCORD_WEBHOOK_"@ + chain
}

/// The name of the setting that holds the audience to mention for a chain, by the chain's
/// name in upper case.
pub open spec fn role_setting(chain: Seq<char>) -> Seq<char> {
    "ROLE_ID_"@ + chain
}

/// The mention of an audience.
pub open spec fn mention(role_id: Seq<char>) -> Seq<char> {
    "<@&"@ + role_id + ">"@
}

/// The card's text for a pair of two symbols.
pub open spec fn pair_line(symbol0: Seq<char>, symbol1: Seq<char>) -> Seq<char> {
    "Liquidity added on pair "@ + symbol0 + "/"@ + symbol1
}

/// An amount and the symbol of its token.
pub open spec fn amount_line(amount: Amount, symbol: Seq<char>) -> Seq<char> {
    amount.text() + " "@ + symbol
}

/// The link to a pair's chart, by the chain's name in lower case.
pub open spec fn chart_link(chain: Seq<char>, pair: Seq<u8>) -> Seq<char> {
    "https://dexscreener.com/"@ + chain + "/"@ + lower_hex(pair)
}

/// Whether `field` is the line `name`: `value`, set on a line of its own.
pub open spec fn is_line(field: AlertField, name: Seq<char>, value: Seq<char>) -> bool {
    field.name@ == name && field.value@ == value && !field.inline
}

/// Whether `message` is the alert for `pair` and the two amounts, to be posted to `webhook`
/// for the audience `role_id`, with the chart of the chain called `chain`.
pub open spec fn is_alert_for(
    message: AlertMessage,
    pair: Pair,
    amount_in: Amount,
    amount_out: Amount,
    webhook: Seq<char>,
    role_id: Seq<char>,
    chain: Seq<char>,
) -> bool {
    &&& message.webhook@ == webhook
    &&& message.content@ == mention(role_id)
    &&& message.username@ == "Liquidity Alert Bot"@
    &&& message.title@ == pair.dex.name@
    &&& message.description@ == pair_line(pair.token0.symbol@, pair.token1.symbol@)
    &&& message.fields@.len() == 3
    &&& is_line(message.fields@[0], "AmountIn"@, amount_line(amount_in, pair.token0.symbol@))
    &&& is_line(message.fields@[1], "AmountOut"@, amount_line(amount_out, pair.token1.symbol@))
    &&& is_line(message.fields@[2], "Chart"@, chart_link(chain, pair.address@))
}

/// A line of its own.
fn line(name: &str, value: String) -> (r: AlertField)
    ensures
        is_line(r, name@, value@),
{
    AlertField { name: String::from_str(name), value, inline: false }
}

/// The alert for `pair` and the two amounts, to be posted to `webhook` for the audience
/// `role_id`, with the chart of the chain whose name in lower case is `chain`.
pub fn alert_message(
    pair: &Pair,
    amount_in: Amount,
    amount_out: Amount,
    webhook: &str,
    role_id: &str,
    chain: &str,
) -> (r: AlertMessage)
    ensures
        is_alert_for(r, *pair, amount_in, amount_out, webhook@, role_id@, chain@),
{
    let mut content = String::from_str("<@&");
    content.append(role_id);
    content.append(">");

    let mut description = String::from_str("Liquidity added on pair ");
    description.append(pair.token0.symbol.as_str());
    description.append("/");
    description.append(pair.token1.symbol.as_str());

    let mut amount_in_line = amount_in.to_text();
    amount_in_line.append(" ");
    amount_in_line.append(pair.token0.symbol.as_str());

    let mut amount_out_line = amount_out.to_text();
    amount_out_line.append(" ");
    amount_out_line.append(pair.token1.symbol.as_str());

    let mut chart = String::from_str("https://dexscreener.com/");
    chart.append(chain);
    chart.append("/");
    chart.append(pair.address.to_hex().as_str());

    let mut fields: Vec<AlertField> = Vec::new();
    fields.push(line("AmountIn", amount_in_line));
    fields.push(line("AmountOut", amount_out_line));
    fields.push(line("Chart", chart));

    AlertMessage {
        webhook: String::from_str(webhook),
        content,
        username: String::from_str("Liquidity Alert Bot"),
        title: pair.dex.name.clone(),
        description,
        fields,
    }
}

/// The alert for the first liquidity of `pair`, with the amounts deposited. The endpoint and
/// the audience are the settings of the pair's chain; a chain without them is an error, the
/// endpoint looked for first.
pub fn alert(pair: &Pair, amount_in: Amount, amount_out: Amount, env: &Environment) -> (r: Result<
    AlertMessage,
    ConfigError,
>)
    ensures
        match (
            env.value_of(webhook_setting(uppercase_of(pair.dex.chain@))),
            env.value_of(role_setting(uppercase_of(pair.dex.chain@))),
        ) {
            (None, _) => r is Err && r.unwrap_err() == ConfigError::MissingWebhook,
            (Some(_), None) => r is Err && r.unwrap_err() == ConfigError::MissingRole,
            (Some(webhook), Some(role_id)) => r is Ok && is_alert_for(
                r.unwrap(),
                *pair,
                amount_in,
                amount_out,
                webhook,
                role_id,
                lowercase_of(pair.dex.chain@),
            ),
        },
{
    let chain_upper = pair.dex.chain.as_str().to_uppercase();
    let webhook_name = joined("DISCORD_WEBHOOK_", chain_upper.as_str());
    let role_name = joined("ROLE_ID_", chain_upper.as_str());
    match env.get(webhook_name.as_str()) {
        None => Err(ConfigError::MissingWebhook),
        Some(webhook) => match env.get(role_name.as_str()) {
            None => Err(ConfigError::MissingRole),
            Some(role_id) => {
                let chain_lower = pair.dex.chain.as_str().to_lowercase();
                Ok(
                    alert_message(
                        pair,
                        amount_in,
                        amount_out,
                        webhook.as_str(),
                        role_id.as_str(),
                        chain_lower.as_str(),
                    ),
                )
            },
        },
    }
}

} // verus!
