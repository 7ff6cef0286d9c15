use stark_backend::args::ToolArgs;
use stark_backend::registers::RegisterStore;
use stark_backend::result::ToolStatus;
use stark_backend::token_lookup::{default_network, default_tokens, get_tokens, NetworkTokens, TokenLookupTool, TokenTable};

#[test]
fn test_base_token_lookup() {
    let token = TokenLookupTool::new().lookup("USDC", "base").unwrap();
    assert_eq!(token.address, "0x833589fCD6eDb6E08f4c7C32D4f71b54bdA02913");
    assert_eq!(token.decimals, 6);
}

#[test]
fn test_case_insensitive() {
    let tool = TokenLookupTool::new();
    let token1 = tool.lookup("usdc", "base").unwrap();
    let token2 = tool.lookup("USDC", "base").unwrap();
    let token3 = tool.lookup("Usdc", "base").unwrap();

    assert_eq!(token1.address, token2.address);
    assert_eq!(token2.address, token3.address);
}

#[test]
fn test_eth_special_address() {
    let token = TokenLookupTool::new().lookup("ETH", "base").unwrap();
    assert_eq!(token.address, "0xEeeeeEeeeEeEeeEeEeEeeEEEeeeeEeeeeeeeEEeE");
}

#[test]
fn test_unknown_token() {
    assert!(TokenLookupTool::new().lookup("UNKNOWN_TOKEN_XYZ", "base").is_none());
}

#[test]
fn unknown_network_falls_back_to_base() {
    let token = TokenLookupTool::new().lookup("weth", "solana").unwrap();
    assert_eq!(token.address, "0x4200000000000000000000000000000000000006");
}

#[test]
fn mainnet_has_its_own_addresses() {
    let token = TokenLookupTool::new().lookup("USDC", "mainnet").unwrap();
    assert_eq!(token.address, "0xA0b86991c6218b36c1d19D4a2e9Eb0cE3606eB48");
    assert_eq!(token.name, "USD Coin");
}

#[test]
fn lookup_upper_does_not_fold_case() {
    let tool = TokenLookupTool::new();
    assert!(tool.lookup_upper("usdc", "base").is_none());
    assert!(tool.lookup_upper("USDC", "base").is_some());
}

#[test]
fn list_available_is_sorted() {
    let tool = TokenLookupTool::new();
    assert_eq!(tool.list_available("base"), vec!["ETH", "USDC", "WETH"]);
    assert_eq!(tool.list_available("solana"), vec!["ETH", "USDC", "WETH"]);
}

#[test]
fn defaults_of_the_table() {
    assert_eq!(default_network(), "base");
    let t = default_tokens();
    assert_eq!(t.networks.len(), 2);
    assert_eq!(t.networks[1].network, "mainnet");
    let loaded = get_tokens(Some(TokenTable { networks: Vec::new() }));
    assert!(loaded.networks.is_empty());
}

#[test]
fn execute_caches_address_and_symbol() {
    let tool = TokenLookupTool::new();
    let args = ToolArgs::decode(r#"{"symbol":"usdc","cache_as":"sell_token"}"#).unwrap();
    let mut regs = RegisterStore::new();
    let r = tool.execute(&args, &mut regs);
    assert_eq!(r.status, ToolStatus::Success);
    assert_eq!(
        r.text,
        "USD Coin (USDC) on base\nAddress: 0x833589fCD6eDb6E08f4c7C32D4f71b54bdA02913\nDecimals: 6"
    );
    assert_eq!(regs.get("sell_token").unwrap(), "0x833589fCD6eDb6E08f4c7C32D4f71b54bdA02913");
    assert_eq!(regs.get("sell_token_symbol").unwrap(), "USDC");
    let meta: Vec<(&str, &str)> = r.metadata.iter().map(|(k, v)| (k.as_str(), v.as_str())).collect();
    assert_eq!(
        meta,
        vec![
            ("symbol", "USDC"),
            ("address", "0x833589fCD6eDb6E08f4c7C32D4f71b54bdA02913"),
            ("decimals", "6"),
            ("name", "USD Coin"),
            ("network", "base"),
            ("cached_in_register", "sell_token"),
        ]
    );
}

#[test]
fn execute_reports_unknown_token_with_available_list() {
    let tool = TokenLookupTool::new();
    let args = ToolArgs::decode(r#"{"symbol":"DOGE","network":"mainnet"}"#).unwrap();
    let mut regs = RegisterStore::new();
    let r = tool.execute(&args, &mut regs);
    assert_eq!(r.status, ToolStatus::Error);
    assert_eq!(r.text, "Token 'DOGE' not found on mainnet. Available tokens: ETH, USDC, WETH");
    assert!(regs.get("DOGE").is_none());
}

#[test]
fn published_schema() {
    let tool = TokenLookupTool::new();
    let d = tool.definition();
    assert_eq!(d.name, "token_lookup");
    assert_eq!(d.input_schema.required, vec!["symbol"]);
    let names: Vec<_> = d.input_schema.properties.iter().map(|p| p.name.as_str()).collect();
    assert_eq!(names, vec!["symbol", "network", "cache_as"]);
    let net = &d.input_schema.properties[1];
    assert_eq!(net.default.as_deref(), Some("base"));
    assert_eq!(net.enum_values.clone().unwrap(), vec!["base", "mainnet"]);
}

#[test]
fn malformed_table_falls_back_to_defaults() {
    let twice = TokenTable {
        networks: vec![
            NetworkTokens { network: "base".to_string(), tokens: vec![] },
            NetworkTokens { network: "base".to_string(), tokens: vec![] },
        ],
    };
    assert!(!twice.is_wf());
    assert_eq!(get_tokens(Some(twice)).networks.len(), 2);
    assert!(get_tokens(Some(TokenTable { networks: vec![] })).networks.is_empty());
}
