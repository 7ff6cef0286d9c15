//! Token lookup: resolves a token symbol to its contract address on a
//! network, so that the model need not recall addresses, and can leave the
//! address in a register for later tools.

use crate::args::{text_field, ToolArgs};
use crate::catalog::{kind_name, property, ToolKind};
use crate::registers::{set_in, RegisterStore};
use crate::result::{ToolResult, ToolStatus};
use crate::schema::{schema_wf, ParamType, ToolDefinition, ToolInputSchema};
use crate::text::{decimal, decimal_text, join, joined, sorted, sort_texts, upper_of, uppercase, views};
use vstd::prelude::*;

verus! {

/// What is known of one token on one network.
#[derive(Clone, Debug)]
pub struct TokenInfo {
    pub address: String,
    pub decimals: u8,
    pub name: String,
}

/// The tokens of one network, each under its upper-case symbol.
#[derive(Clone, Debug)]
pub struct NetworkTokens {
    pub network: String,
    pub tokens: Vec<(String, TokenInfo)>,
}

/// The known tokens of each network.
#[derive(Clone, Debug)]
pub struct TokenTable {
    pub networks: Vec<NetworkTokens>,
}

/// Network names are distinct, and within a network symbols are distinct.
pub open spec fn table_wf(t: TokenTable) -> bool {
    &&& forall|i: int, j: int|
        0 <= i < j < t.networks@.len() ==> t.networks@[i].network@ != t.networks@[j].network@
    &&& forall|i: int| 0 <= i < t.networks@.len() ==> symbols((#[trigger] t.networks@[i]).tokens@).no_duplicates()
}

/// The tokens of the first entry of `networks` named `network`.
pub open spec fn tokens_of(networks: Seq<NetworkTokens>, network: Seq<char>) -> Option<Seq<(String, TokenInfo)>>
    decreases networks.len(),
{
    if networks.len() == 0 {
        None
    } else if networks[0].network@ == network {
        Some(networks[0].tokens@)
    } else {
        tokens_of(networks.drop_first(), network)
    }
}

/// The first token of `tokens` under `symbol`.
pub open spec fn token_of(tokens: Seq<(String, TokenInfo)>, symbol: Seq<char>) -> Option<TokenInfo>
    decreases tokens.len(),
{
    if tokens.len() == 0 {
        None
    } else if tokens[0].0@ == symbol {
        Some(tokens[0].1)
    } else {
        token_of(tokens.drop_first(), symbol)
    }
}

/// The tokens consulted for `network`: its own, or those of "base" when the
/// table does not know it.
pub open spec fn consulted(table: TokenTable, network: Seq<char>) -> Option<Seq<(String, TokenInfo)>> {
    match tokens_of(table.networks@, network) {
        Some(t) => Some(t),
        None => tokens_of(table.networks@, "base"@),
    }
}

/// The token found under an upper-case symbol on `network`.
pub open spec fn looked_up(table: TokenTable, symbol_upper: Seq<char>, network: Seq<char>) -> Option<TokenInfo> {
    match consulted(table, network) {
        Some(t) => token_of(t, symbol_upper),
        None => None,
    }
}

/// The symbols of `tokens`, in order.
pub open spec fn symbols(tokens: Seq<(String, TokenInfo)>) -> Seq<Seq<char>> {
    tokens.map_values(|e: (String, TokenInfo)| e.0@)
}

/// `info` holds this address, decimals and name.
pub open spec fn is_token(info: TokenInfo, address: Seq<char>, decimals: u8, name: Seq<char>) -> bool {
    info.address@ == address && info.decimals == decimals && info.name@ == name
}

/// `n` lists Ether, Wrapped Ether and USD Coin under these addresses.
pub open spec fn is_default_network(n: NetworkTokens, network: Seq<char>, weth: Seq<char>, usdc: Seq<char>) -> bool {
    &&& n.network@ == network
    &&& n.tokens@.len() == 3
    &&& n.tokens@[0].0@ == "ETH"@
    &&& is_token(n.tokens@[0].1, "0xEeeeeEeeeEeEeeEeEeEeeEEEeeeeEeeeeeeeEEeE"@, 18, "Ethereum"@)
    &&& n.tokens@[1].0@ == "USDC"@
    &&& is_token(n.tokens@[1].1, usdc, 6, "USD Coin"@)
    &&& n.tokens@[2].0@ == "WETH"@
    &&& is_token(n.tokens@[2].1, weth, 18, "Wrapped Ether"@)
}

/// The built-in table: Ether, USD Coin and Wrapped Ether on Base and on
/// Ethereum mainnet.
pub open spec fn is_default_table(t: TokenTable) -> bool {
    &&& t.networks@.len() == 2
    &&& is_default_network(
        t.networks@[0],
        "base"@,
        "0x4200000000000000000000000000000000000006"@,
        "0x833589fCD6eDb6E08f4c7C32D4f71b54bdA02913"@,
    )
    &&& is_default_network(
        t.networks@[1],
        "mainnet"@,
        "0xC02aaA39b223FE8D0A0e5C4F27eAD9083C756Cc2"@,
        "0xA0b86991c6218b36c1d19D4a2e9Eb0cE3606eB48"@,
    )
}

fn token(symbol: &str, address: &str, decimals: u8, name: &str) -> (r: (String, TokenInfo))
    ensures
        r.0@ == symbol@,
        is_token(r.1, address@, decimals, name@),
{
    (
        String::from_str(symbol),
        TokenInfo { address: String::from_str(address), decimals, name: String::from_str(name) },
    )
}

fn default_network_tokens(network: &str, weth: &str, usdc: &str) -> (r: NetworkTokens)
    ensures
        is_default_network(r, network@, weth@, usdc@),
{
    let tokens = vec![
        token("ETH", "0xEeeeeEeeeEeEeeEeEeEeeEEEeeeeEeeeeeeeEEeE", 18, "Ethereum"),
        token("USDC", usdc, 6, "USD Coin"),
        token("WETH", weth, 18, "Wrapped Ether"),
    ];
    NetworkTokens { network: String::from_str(network), tokens }
}

/// The built-in table, used when no token configuration was loaded.
pub fn default_tokens() -> (r: TokenTable)
    ensures
        is_default_table(r),
        table_wf(r),
{
    let base = default_network_tokens(
        "base",
        "0x4200000000000000000000000000000000000006",
        "0x833589fCD6eDb6E08f4c7C32D4f71b54bdA02913",
    );
    let mainnet = default_network_tokens(
        "mainnet",
        "0xC02aaA39b223FE8D0A0e5C4F27eAD9083C756Cc2",
        "0xA0b86991c6218b36c1d19D4a2e9Eb0cE3606eB48",
    );
    let r = TokenTable { networks: vec![base, mainnet] };
    proof {
        reveal_strlit("base");
        reveal_strlit("mainnet");
        reveal_strlit("ETH");
        reveal_strlit("USDC");
        reveal_strlit("WETH");
        assert("base"@.len() != "mainnet"@.len());
        assert("ETH"@.len() == 3 && "USDC"@.len() == 4 && "WETH"@.len() == 4);
        assert("USDC"@[0] != "WETH"@[0]);
        assert forall|i: int| 0 <= i < 2 implies symbols((#[trigger] r.networks@[i]).tokens@).no_duplicates() by {
            let sy = symbols(r.networks@[i].tokens@);
            assert(sy[0] == "ETH"@ && sy[1] == "USDC"@ && sy[2] == "WETH"@);
        }
    }
    r
}

impl TokenTable {
    /// Whether network names, and the symbols within each network, are
    /// distinct.
    pub fn is_wf(&self) -> (r: bool)
        ensures
            r == table_wf(*self),
    {
        let n = &self.networks;
        let mut i: usize = 0;
        while i < n.len()
            invariant
                n == &self.networks,
                i <= n@.len(),
                forall|a: int, b: int| 0 <= a < b < i ==> n@[a].network@ != n@[b].network@,
                forall|a: int| 0 <= a < i ==> symbols((#[trigger] n@[a]).tokens@).no_duplicates(),
            decreases n@.len() - i,
        {
            let mut j: usize = 0;
            while j < i
                invariant
                    n == &self.networks,
                    i < n@.len(),
                    j <= i,
                    forall|a: int| 0 <= a < j ==> n@[a].network@ != n@[i as int].network@,
                decreases i - j,
            {
                if crate::text::str_eq(n[j].network.as_str(), n[i].network.as_str()) {
                    assert(n@[j as int].network@ == n@[i as int].network@);
                    return false;
                }
                j = j + 1;
            }
            let t = &n[i].tokens;
            let mut a: usize = 0;
            while a < t.len()
                invariant
                    n == &self.networks,
                    i < n@.len(),
                    t == &n@[i as int].tokens,
                    a <= t@.len(),
                    forall|x: int, y: int| 0 <= x < y < a ==> t@[x].0@ != t@[y].0@,
                decreases t@.len() - a,
            {
                let mut b: usize = 0;
                while b < a
                    invariant
                        n == &self.networks,
                        i < n@.len(),
                        t == &n@[i as int].tokens,
                        a < t@.len(),
                        b <= a,
                        forall|x: int| 0 <= x < b ==> t@[x].0@ != t@[a as int].0@,
                    decreases a - b,
                {
                    if crate::text::str_eq(t[b].0.as_str(), t[a].0.as_str()) {
                        assert(symbols(t@)[b as int] == symbols(t@)[a as int]);
                        assert(!symbols(n@[i as int].tokens@).no_duplicates());
                        return false;
                    }
                    b = b + 1;
                }
                a = a + 1;
            }
            assert(symbols(t@).no_duplicates());
            i = i + 1;
        }
        true
    }
}

/// The table to use: the one loaded from configuration when it is well
/// formed, else the built-in one.
pub fn get_tokens(loaded: Option<TokenTable>) -> (r: TokenTable)
    ensures
        table_wf(r),
        match loaded {
            Some(t) if table_wf(t) => r == t,
            _ => is_default_table(r),
        },
{
    match loaded {
        Some(t) => if t.is_wf() {
            t
        } else {
            default_tokens()
        },
        None => default_tokens(),
    }
}

/// The network consulted when a call names none.
pub fn default_network() -> (r: String)
    ensures
        r@ == "base"@,
{
    String::from_str("base")
}

fn copy_info(t: &TokenInfo) -> (r: TokenInfo)
    ensures
        r == *t,
{
    TokenInfo { address: t.address.clone(), decimals: t.decimals, name: t.name.clone() }
}

fn find_network(networks: &Vec<NetworkTokens>, network: &str) -> (r: Option<usize>)
    ensures
        match r {
            Some(i) => i < networks@.len() && tokens_of(networks@, network@) == Some(networks@[i as int].tokens@),
            None => tokens_of(networks@, network@) is None,
        },
{
    let mut i: usize = 0;
    assert(networks@.skip(0) =~= networks@);
    while i < networks.len()
        invariant
            i <= networks@.len(),
            tokens_of(networks@, network@) == tokens_of(networks@.skip(i as int), network@),
        decreases networks@.len() - i,
    {
        assert(networks@.skip(i as int).drop_first() =~= networks@.skip(i + 1));
        if crate::text::str_eq(networks[i].network.as_str(), network) {
            return Some(i);
        }
        i = i + 1;
    }
    None
}

fn find_token(tokens: &Vec<(String, TokenInfo)>, symbol: &str) -> (r: Option<usize>)
    ensures
        match r {
            Some(i) => i < tokens@.len() && token_of(tokens@, symbol@) == Some(tokens@[i as int].1),
            None => token_of(tokens@, symbol@) is None,
        },
{
    let mut i: usize = 0;
    assert(tokens@.skip(0) =~= tokens@);
    while i < tokens.len()
        invariant
            i <= tokens@.len(),
            token_of(tokens@, symbol@) == token_of(tokens@.skip(i as int), symbol@),
        decreases tokens@.len() - i,
    {
        assert(tokens@.skip(i as int).drop_first() =~= tokens@.skip(i + 1));
        if crate::text::str_eq(tokens[i].0.as_str(), symbol) {
            return Some(i);
        }
        i = i + 1;
    }
    None
}

/// The token lookup tool: its published contract and its table.
pub struct TokenLookupTool {
    definition: ToolDefinition,
    tokens: TokenTable,
}

impl TokenLookupTool {
    /// The table always keeps network names and symbols distinct.
    #[verifier::type_invariant]
    spec fn inv(&self) -> bool {
        table_wf(self.tokens)
    }

    /// The table consulted.
    pub closed spec fn table(&self) -> TokenTable {
        self.tokens
    }

    /// The published contract.
    pub closed spec fn spec_definition(&self) -> ToolDefinition {
        self.definition
    }

    /// The tool over the built-in table.
    pub fn new() -> (r: TokenLookupTool)
        ensures
            is_default_table(r.table()),
            r.spec_definition().name@ == kind_name(ToolKind::TokenLookup),
            r.spec_definition().description@
                == "Look up a token's contract address by its symbol. Supports common tokens on Base and Mainnet. Use cache_as to store the address in a register for use with swap presets."@,
            is_lookup_schema(r.spec_definition().input_schema),
            schema_wf(r.spec_definition().input_schema),
    {
        TokenLookupTool::with_tokens(get_tokens(None))
    }

    /// The tool over a given table.
    pub fn with_tokens(tokens: TokenTable) -> (r: TokenLookupTool)
        requires
            table_wf(tokens),
        ensures
            r.table() == tokens,
            r.spec_definition().name@ == kind_name(ToolKind::TokenLookup),
            r.spec_definition().description@
                == "Look up a token's contract address by its symbol. Supports common tokens on Base and Mainnet. Use cache_as to store the address in a register for use with swap presets."@,
            is_lookup_schema(r.spec_definition().input_schema),
            schema_wf(r.spec_definition().input_schema),
    {
        let symbol = property("symbol", ParamType::Text, "Token symbol (e.g., 'ETH', 'USDC', 'WETH'). Case-insensitive.");
        let mut network = property("network", ParamType::Text, "Network: 'base' or 'mainnet'");
        network.default = Some(default_network());
        network.enum_values = Some(vec![String::from_str("base"), String::from_str("mainnet")]);
        let cache_as = property(
            "cache_as",
            ParamType::Text,
            "Register name to cache the token address (e.g., 'sell_token', 'buy_token')",
        );
        let definition = ToolDefinition {
            name: String::from_str(ToolKind::TokenLookup.name()),
            description: String::from_str(
                "Look up a token's contract address by its symbol. Supports common tokens on Base and Mainnet. Use cache_as to store the address in a register for use with swap presets.",
            ),
            input_schema: ToolInputSchema {
                properties: vec![symbol, network, cache_as],
                required: vec![String::from_str("symbol")],
            },
        };
        proof {
            reveal_strlit("symbol");
            reveal_strlit("network");
            reveal_strlit("cache_as");
            assert("symbol"@.len() == 6);
            assert("network"@.len() == 7);
            assert("cache_as"@.len() == 8);
            assert(definition.input_schema.properties@[0].name@ == definition.input_schema.required@[0]@);
        }
        TokenLookupTool { definition, tokens }
    }

    /// The published contract.
    pub fn definition(&self) -> (r: &ToolDefinition)
        ensures
            *r == self.spec_definition(),
    {
        &self.definition
    }

    /// The table consulted.
    pub fn get_tokens(&self) -> (r: &TokenTable)
        ensures
            *r == self.table(),
    {
        &self.tokens
    }

    /// The token under `symbol`, in any letter case, on `network` (or on
    /// "base" when the table does not know `network`).
    pub fn lookup(&self, symbol: &str, network: &str) -> (r: Option<TokenInfo>)
        ensures
            r == looked_up(self.table(), upper_of(symbol@), network@),
    {
        let upper = uppercase(symbol);
        self.lookup_upper(upper.as_str(), network)
    }

    /// The token under an upper-case symbol on `network` (or on "base" when
    /// the table does not know `network`).
    pub fn lookup_upper(&self, symbol_upper: &str, network: &str) -> (r: Option<TokenInfo>)
        ensures
            r == looked_up(self.table(), symbol_upper@, network@),
    {
        let n = match find_network(&self.tokens.networks, network) {
            Some(i) => Some(i),
            None => find_network(&self.tokens.networks, "base"),
        };
        match n {
            Some(i) => match find_token(&self.tokens.networks[i].tokens, symbol_upper) {
                Some(k) => Some(copy_info(&self.tokens.networks[i].tokens[k].1)),
                None => None,
            },
            None => None,
        }
    }

    /// The symbols known on `network` (or on "base" when the table does not
    /// know `network`), sorted; empty when neither is known.
    pub fn list_available(&self, network: &str) -> (r: Vec<String>)
        ensures
            sorted(views(r@)),
            views(r@).no_duplicates(),
            match consulted(self.table(), network@) {
                Some(t) => views(r@).to_multiset() == symbols(t).to_multiset(),
                None => r@.len() == 0,
            },
    {
        let n = match find_network(&self.tokens.networks, network) {
            Some(i) => Some(i),
            None => find_network(&self.tokens.networks, "base"),
        };
        match n {
            Some(i) => {
                let tokens = &self.tokens.networks[i].tokens;
                let mut names: Vec<String> = Vec::new();
                let mut k: usize = 0;
                while k < tokens.len()
                    invariant
                        k <= tokens@.len(),
                        views(names@) == symbols(tokens@.subrange(0, k as int)),
                    decreases tokens@.len() - k,
                {
                    let sym = tokens[k].0.clone();
                    let ghost prev = views(names@);
                    names.push(sym);
                    assert(views(names@) =~= prev.push(sym@));
                    assert(symbols(tokens@.subrange(0, k + 1)) =~= symbols(tokens@.subrange(0, k as int)).push(sym@));
                    k = k + 1;
                }
                assert(tokens@.subrange(0, tokens@.len() as int) =~= tokens@);
                let r = sort_texts(&names);
                proof {
                    use_type_invariant(self);
                    assert(symbols(self.tokens.networks@[i as int].tokens@).no_duplicates());
                    symbols(tokens@).lemma_multiset_has_no_duplicates();
                    views(r@).lemma_multiset_has_no_duplicates_conv();
                }
                r
            },
            None => Vec::new(),
        }
    }
}

/// `p` is a string property with this name and description, no element
/// type, and no default or value limit.
pub open spec fn plain_text_property(p: crate::schema::PropertySchema, name: Seq<char>, description: Seq<char>) -> bool {
    &&& p.name@ == name
    &&& p.schema_type == ParamType::Text
    &&& p.description@ == description
    &&& p.default is None
    &&& p.items is None
    &&& p.enum_values is None
}

/// The published parameters of token lookup: a required `symbol`; a
/// `network` that defaults to "base" and allows "base" or "mainnet"; and an
/// optional `cache_as` register name.
pub open spec fn is_lookup_schema(s: ToolInputSchema) -> bool {
    let props = s.properties@;
    &&& s.required@.len() == 1
    &&& s.required@[0]@ == "symbol"@
    &&& props.len() == 3
    &&& plain_text_property(props[0], "symbol"@, "Token symbol (e.g., 'ETH', 'USDC', 'WETH'). Case-insensitive."@)
    &&& props[1].name@ == "network"@
    &&& props[1].schema_type == ParamType::Text
    &&& props[1].description@ == "Network: 'base' or 'mainnet'"@
    &&& props[1].items is None
    &&& props[1].default matches Some(d) && d@ == "base"@
    &&& props[1].enum_values matches Some(v) && v@.len() == 2 && v@[0]@ == "base"@ && v@[1]@ == "mainnet"@
    &&& plain_text_property(
        props[2],
        "cache_as"@,
        "Register name to cache the token address (e.g., 'sell_token', 'buy_token')"@,
    )
}

/// The text of a successful lookup.
pub open spec fn found_text(info: TokenInfo, symbol_upper: Seq<char>, network: Seq<char>) -> Seq<char> {
    info.name@ + " ("@ + symbol_upper + ") on "@ + network + "\nAddress: "@ + info.address@
        + "\nDecimals: "@ + decimal(info.decimals as nat)
}

/// The text of a failed lookup, listing the symbols that are known.
pub open spec fn not_found_text(symbol: Seq<char>, network: Seq<char>, available: Seq<Seq<char>>) -> Seq<char> {
    "Token '"@ + symbol + "' not found on "@ + network + ". Available tokens: "@ + joined(available, ", "@)
}

/// `available` is the sorted list of symbols consulted for `network`.
pub open spec fn lists_available(table: TokenTable, network: Seq<char>, available: Seq<Seq<char>>) -> bool {
    &&& sorted(available)
    &&& match consulted(table, network) {
        Some(t) => available.to_multiset() == symbols(t).to_multiset(),
        None => available.len() == 0,
    }
}

/// The network a call names, or "base".
pub open spec fn network_arg(args: ToolArgs) -> Seq<char> {
    match text_field(args, "network"@) {
        Some(n) => n,
        None => "base"@,
    }
}

/// What a token lookup call with these arguments, given the upper-case form
/// of its symbol, returns and leaves in the registers.
pub open spec fn lookup_call(
    table: TokenTable,
    args: ToolArgs,
    symbol_upper: Seq<char>,
    before: Seq<crate::registers::RegisterEntry>,
    after: Seq<crate::registers::RegisterEntry>,
    r: ToolResult,
) -> bool {
    let network = network_arg(args);
    match text_field(args, "symbol"@) {
        None => r.status == ToolStatus::Error && r.text@ == "Invalid parameters: missing field `symbol`"@
            && after == before,
        Some(symbol) => match looked_up(table, symbol_upper, network) {
            Some(info) => {
                &&& r.status == ToolStatus::Success
                &&& r.text@ == found_text(info, symbol_upper, network)
                &&& r.metadata@.len() == 6
                &&& r.metadata@[0].0@ == "symbol"@ && r.metadata@[0].1@ == symbol_upper
                &&& r.metadata@[1].0@ == "address"@ && r.metadata@[1].1@ == info.address@
                &&& r.metadata@[2].0@ == "decimals"@ && r.metadata@[2].1@ == decimal(info.decimals as nat)
                &&& r.metadata@[3].0@ == "name"@ && r.metadata@[3].1@ == info.name@
                &&& r.metadata@[4].0@ == "network"@ && r.metadata@[4].1@ == network
                &&& r.metadata@[5].0@ == "cached_in_register"@ && r.metadata@[5].1@ == match text_field(
                    args,
                    "cache_as"@,
                ) {
                    Some(reg) => reg,
                    None => "null"@,
                }
                &&& match text_field(args, "cache_as"@) {
                    Some(reg) => exists|mid: Seq<crate::registers::RegisterEntry>|
                        set_in(before, mid, reg, info.address@, "token_lookup"@) && set_in(
                            mid,
                            after,
                            reg + "_symbol"@,
                            symbol_upper,
                            "token_lookup"@,
                        ),
                    None => after == before,
                }
            },
            None => {
                &&& r.status == ToolStatus::Error
                &&& exists|available: Seq<Seq<char>>|
                    lists_available(table, network, available) && r.text@ == not_found_text(
                        symbol,
                        network,
                        available,
                    )
                &&& after == before
            },
        },
    }
}

fn cache_lookup(registers: &mut RegisterStore, reg: &str, address: String, symbol_upper: &str) -> (mid: Ghost<Seq<crate::registers::RegisterEntry>>)
    ensures
        set_in(old(registers).entries(), mid@, reg@, address@, "token_lookup"@),
        set_in(mid@, final(registers).entries(), reg@ + "_symbol"@, symbol_upper@, "token_lookup"@),
{
    let ghost before = registers.entries();
    registers.set(reg, address, "token_lookup");
    let ghost mid = registers.entries();
    let mut symbol_reg = String::from_str(reg);
    symbol_reg.append("_symbol");
    registers.set(symbol_reg.as_str(), String::from_str(symbol_upper), "token_lookup");
    Ghost(mid)
}

fn pair(name: &str, value: String) -> (r: (String, String))
    ensures
        r.0@ == name@,
        r.1 == value,
{
    (String::from_str(name), value)
}

impl TokenLookupTool {
    /// Runs a lookup call: on success the text gives the token's name,
    /// symbol, network, address and decimals, and with `cache_as` the
    /// address goes to that register and the symbol to `<cache_as>_symbol`.
    pub fn execute(&self, args: &ToolArgs, registers: &mut RegisterStore) -> (r: ToolResult)
        ensures
            lookup_call(
                self.table(),
                *args,
                match text_field(*args, "symbol"@) {
                    Some(s) => upper_of(s),
                    None => Seq::empty(),
                },
                old(registers).entries(),
                final(registers).entries(),
                r,
            ),
    {
        match args.text("symbol") {
            Some(symbol) => {
                let upper = uppercase(symbol.as_str());
                self.execute_upper(args, upper.as_str(), registers)
            },
            None => {
                proof {
                    reveal_strlit("symbol");
                }
                ToolResult::error(String::from_str("Invalid parameters: missing field `symbol`"))
            },
        }
    }

    /// Runs a lookup call, given the upper-case form of its symbol.
    pub fn execute_upper(&self, args: &ToolArgs, symbol_upper: &str, registers: &mut RegisterStore) -> (r: ToolResult)
        ensures
            lookup_call(self.table(), *args, symbol_upper@, old(registers).entries(), final(registers).entries(), r),
    {
        let symbol = match args.text("symbol") {
            Some(s) => s,
            None => {
                return ToolResult::error(String::from_str("Invalid parameters: missing field `symbol`"));
            },
        };
        let network = match args.text("network") {
            Some(n) => n,
            None => default_network(),
        };
        match self.lookup_upper(symbol_upper, network.as_str()) {
            Some(info) => {
                let cache = args.text("cache_as");
                let ghost mut mid = registers.entries();
                match &cache {
                    Some(reg) => {
                        let m = cache_lookup(registers, reg.as_str(), info.address.clone(), symbol_upper);
                        proof {
                            mid = m@;
                        }
                    },
                    None => {},
                }
                let mut text = info.name.clone();
                text.append(" (");
                text.append(symbol_upper);
                text.append(") on ");
                text.append(network.as_str());
                text.append("\nAddress: ");
                text.append(info.address.as_str());
                text.append("\nDecimals: ");
                let digits = decimal_text(info.decimals as u64);
                text.append(digits.as_str());
                let cached = match cache {
                    Some(reg) => reg,
                    None => String::from_str("null"),
                };
                let metadata = vec![
                    pair("symbol", String::from_str(symbol_upper)),
                    pair("address", info.address.clone()),
                    pair("decimals", decimal_text(info.decimals as u64)),
                    pair("name", info.name.clone()),
                    pair("network", network),
                    pair("cached_in_register", cached),
                ];
                let result = ToolResult::success(text).with_metadata(metadata);
                proof {
                    let reg = text_field(*args, "cache_as"@);
                    assert(reg is Some ==> set_in(old(registers).entries(), mid, reg->0, info.address@, "token_lookup"@)
                        && set_in(mid, registers.entries(), reg->0 + "_symbol"@, symbol_upper@, "token_lookup"@));
                }
                result
            },
            None => {
                let available = self.list_available(network.as_str());
                let listed = join(&available, ", ");
                let mut text = String::from_str("Token '");
                text.append(symbol.as_str());
                text.append("' not found on ");
                text.append(network.as_str());
                text.append(". Available tokens: ");
                text.append(listed.as_str());
                let result = ToolResult::error(text);
                assert(lists_available(self.table(), network@, views(available@)) && result.text@ == not_found_text(
                    symbol@,
                    network@,
                    views(available@),
                ));
                result
            },
        }
    }
}

impl Default for TokenLookupTool {
    fn default() -> (r: TokenLookupTool)
        ensures
            is_default_table(r.table()),
    {
        TokenLookupTool::new()
    }
}

} // verus!
