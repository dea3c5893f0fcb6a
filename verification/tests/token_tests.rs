use liquidity_watch::address::Address;
use liquidity_watch::config::{ConfigError, Environment};
use liquidity_watch::token::{explorer_for, Token, TokenError};

fn token_address() -> Address {
    Address::parse("0xa0b86991c6218b36c1d19d4a2e9eb0ce3606eb48").unwrap()
}

fn usdc() -> Token {
    Token::new(
        token_address(),
        Some(String::from("USD Coin")),
        Some(String::from("USDC")),
        Some(6),
    )
    .unwrap()
}

fn env_with_key() -> Environment {
    Environment::new(vec![(String::from("ETHERSCAN_API_KEY"), String::from("KEY123"))])
}

#[test]
fn new_token_holds_its_metadata_and_is_not_verified() {
    let t = usdc();
    assert_eq!(t.address, token_address());
    assert_eq!(t.name, "USD Coin");
    assert_eq!(t.symbol, "USDC");
    assert_eq!(t.decimals, 6);
    assert!(!t.is_verified);
}

#[test]
fn new_token_fails_on_the_first_read_that_failed() {
    let a = token_address();
    let name = || Some(String::from("USD Coin"));
    let symbol = || Some(String::from("USDC"));
    assert_eq!(Token::new(a, None, symbol(), Some(6)).unwrap_err(), TokenError::Name);
    assert_eq!(Token::new(a, None, None, None).unwrap_err(), TokenError::Name);
    assert_eq!(Token::new(a, name(), None, Some(6)).unwrap_err(), TokenError::Symbol);
    assert_eq!(Token::new(a, name(), None, None).unwrap_err(), TokenError::Symbol);
    assert_eq!(Token::new(a, name(), symbol(), None).unwrap_err(), TokenError::Decimals);
}

#[test]
fn clone_keeps_every_field() {
    let mut t = usdc();
    t.is_verified = true;
    let c = t.clone();
    assert_eq!(c.address, t.address);
    assert_eq!(c.name, t.name);
    assert_eq!(c.symbol, t.symbol);
    assert_eq!(c.decimals, t.decimals);
    assert_eq!(c.is_verified, t.is_verified);
}

#[test]
fn explorer_hosts_by_chain() {
    let hosts = [
        ("ethereum", "etherscan.io/"),
        ("ropsten", "ropsten.etherscan.io/"),
        ("rinkeby", "rinkeby.etherscan.io/"),
        ("goerli", "goerli.etherscan.io/"),
        ("kovan", "kovan.etherscan.io/"),
        ("bsc", "bscscan.com/"),
        ("arbitrum", "arbiscan.io/"),
        ("polygon", "polygonscan.com/"),
        ("avalanche", "snowtrace.io/"),
    ];
    for (chain, host) in hosts {
        assert_eq!(explorer_for(chain), Some(String::from(host)));
    }
}

#[test]
fn chain_without_an_explorer_has_none() {
    assert_eq!(explorer_for("fantom"), None);
    assert_eq!(explorer_for("cronos"), None);
    assert_eq!(explorer_for(""), None);
    assert_eq!(explorer_for("solana"), None);
    // the name is matched in lower case only
    assert_eq!(explorer_for("BSC"), None);
}

#[test]
fn get_explorer_takes_the_chain_in_any_case() {
    assert_eq!(Token::get_explorer(String::from("BSC")), Ok(String::from("bscscan.com/")));
    assert_eq!(Token::get_explorer(String::from("Arbitrum")), Ok(String::from("arbiscan.io/")));
    assert_eq!(Token::get_explorer(String::from("ETHEREUM")), Ok(String::from("etherscan.io/")));
    assert_eq!(
        Token::get_explorer(String::from("polygon")),
        Ok(String::from("polygonscan.com/"))
    );
    assert_eq!(Token::get_explorer(String::from("AVALANCHE")), Ok(String::from("snowtrace.io/")));
}

#[test]
fn get_explorer_of_a_chain_without_one_is_an_error() {
    assert_eq!(Token::get_explorer(String::from("FANTOM")), Err(ConfigError::UnsupportedChain));
    assert_eq!(Token::get_explorer(String::from("cronos")), Err(ConfigError::UnsupportedChain));
    assert_eq!(Token::get_explorer(String::new()), Err(ConfigError::UnsupportedChain));
}

#[test]
fn verification_request_builds_the_address_to_fetch() {
    let t = usdc();
    let url = t.verification_request(String::from("BSC"), &env_with_key()).unwrap().unwrap();
    assert_eq!(
        url,
        "https://api.bscscan.com/api?module=contract&action=getabi&address=0xa0b86991c6218b36c1d19d4a2e9eb0ce3606eb48&apikey=KEY123"
    );
}

#[test]
fn verification_request_without_a_key_is_an_error() {
    let t = usdc();
    let env = Environment::new(Vec::new());
    assert_eq!(
        t.verification_request(String::from("ETHEREUM"), &env).unwrap_err(),
        ConfigError::MissingApiKey
    );
}

#[test]
fn verification_request_on_a_chain_without_an_explorer_is_an_error() {
    let t = usdc();
    assert_eq!(
        t.verification_request(String::from("FANTOM"), &env_with_key()).unwrap_err(),
        ConfigError::UnsupportedChain
    );
    assert_eq!(
        t.verification_request(String::from("CRONOS"), &env_with_key()).unwrap_err(),
        ConfigError::UnsupportedChain
    );
    // the explorer is looked for before the key
    let env = Environment::new(Vec::new());
    assert_eq!(
        t.verification_request(String::from("FANTOM"), &env).unwrap_err(),
        ConfigError::UnsupportedChain
    );
}

#[test]
fn verification_url_is_made_whether_verified_or_not() {
    let mut t = usdc();
    let expected = "https://api.etherscan.io/api?module=contract&action=getabi&address=0xa0b86991c6218b36c1d19d4a2e9eb0ce3606eb48&apikey=KEY123";
    assert_eq!(t.verification_url(String::from("Ethereum"), &env_with_key()).unwrap(), expected);
    t.is_verified = true;
    assert_eq!(t.verification_url(String::from("Ethereum"), &env_with_key()).unwrap(), expected);
    assert_eq!(
        t.verification_url(String::from("FANTOM"), &env_with_key()).unwrap_err(),
        ConfigError::UnsupportedChain
    );
    assert_eq!(
        t.verification_url(String::from("BSC"), &Environment::new(Vec::new())).unwrap_err(),
        ConfigError::MissingApiKey
    );
}

#[test]
fn verified_token_needs_no_request() {
    let mut t = usdc();
    t.is_verified = true;
    assert_eq!(t.verification_request(String::from("ETHEREUM"), &env_with_key()).unwrap(), None);
    // not even a key is needed, nor an explorer
    let env = Environment::new(Vec::new());
    assert_eq!(t.verification_request(String::from("ETHEREUM"), &env).unwrap(), None);
    assert_eq!(t.verification_request(String::from("FANTOM"), &env).unwrap(), None);
}

#[test]
fn answer_with_the_marker_leaves_the_token_unverified() {
    let mut t = usdc();
    let body = String::from(
        "{\"status\":\"0\",\"message\":\"NOTOK\",\"result\":\"Contract source code not verified\"}",
    );
    let r: Result<bool, String> = t.verified_contract(Ok(body));
    assert_eq!(r, Ok(false));
    assert!(!t.is_verified);
}

#[test]
fn answer_without_the_marker_verifies_the_token() {
    let mut t = usdc();
    let body = String::from("{\"status\":\"1\",\"message\":\"OK\",\"result\":\"[]\"}");
    let r: Result<bool, String> = t.verified_contract(Ok(body));
    assert_eq!(r, Ok(true));
    assert!(t.is_verified);
    assert_eq!(t.symbol, "USDC");
    assert_eq!(t.decimals, 6);
}

#[test]
fn marker_is_matched_by_case_and_as_a_whole() {
    let mut a = usdc();
    let r: Result<bool, String> = a.verified_contract(Ok(String::from("notok")));
    assert_eq!(r, Ok(true));
    let mut b = usdc();
    let r: Result<bool, String> = b.verified_contract(Ok(String::from("NOT OK")));
    assert_eq!(r, Ok(true));
    let mut c = usdc();
    let r: Result<bool, String> = c.verified_contract(Ok(String::from("xxNOTOKxx")));
    assert_eq!(r, Ok(false));
    let mut d = usdc();
    let r: Result<bool, String> = d.verified_contract(Ok(String::new()));
    assert_eq!(r, Ok(true));
}

#[test]
fn verification_is_memoized() {
    let mut t = usdc();
    let r: Result<bool, String> = t.verified_contract(Ok(String::from("OK")));
    assert_eq!(r, Ok(true));
    // verified already: no request, and true again whatever is handed in
    assert_eq!(t.verification_request(String::from("ETHEREUM"), &env_with_key()).unwrap(), None);
    let again: Result<bool, String> = t.verified_contract(Ok(String::from("NOTOK")));
    assert_eq!(again, Ok(true));
    assert!(t.is_verified);
    assert_eq!(t.verification_request(String::from("ETHEREUM"), &env_with_key()).unwrap(), None);
    let third: Result<bool, String> = t.verified_contract(Ok(String::from("NOTOK")));
    assert_eq!(third, Ok(true));
    assert!(t.is_verified);
}

#[test]
fn failed_request_is_handed_on_and_changes_nothing() {
    let mut t = usdc();
    let r: Result<bool, String> = t.verified_contract(Err(String::from("connection reset")));
    assert_eq!(r, Err(String::from("connection reset")));
    assert!(!t.is_verified);
    assert_eq!(t.symbol, "USDC");
}

#[test]
fn verified_token_answers_true_whatever_is_handed_in() {
    let mut v = usdc();
    v.is_verified = true;
    let r: Result<bool, String> = v.verified_contract(Err(String::from("timeout")));
    assert_eq!(r, Ok(true));
    assert!(v.is_verified);
    let r: Result<bool, String> = v.verified_contract(Ok(String::from("NOTOK")));
    assert_eq!(r, Ok(true));
    assert!(v.is_verified);
    assert_eq!(v.symbol, "USDC");
    assert_eq!(v.decimals, 6);
}
