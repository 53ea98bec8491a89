//! Hints shown next to errors of the key-value store API.
use vstd::prelude::*;

verus! {

/// The hint for an API error code, empty when there is none.
pub open spec fn help_spec(error_code: u16) -> Seq<char> {
    if error_code == 10010 || error_code == 10011 || error_code == 10012 || error_code == 10013
        || error_code == 10014 || error_code == 10018 {
        "Run `wrangler kv list` to see your existing namespaces with IDs"@
    } else if error_code == 10009 {
        "Run `wrangler kv list <namespaceID>` to see your existing keys"@
    } else if error_code == 10022 || error_code == 10024 || error_code == 10030 {
        "See documentation"@
    } else if error_code == 10021 || error_code == 10035 || error_code == 10038 {
        "Consider moving this namespace"@
    } else if error_code == 10017 || error_code == 10026 {
        "Workers KV is a paid feature, please upgrade your account (https://www.cloudflare.com/products/workers-kv/)"@
    } else {
        ""@
    }
}

/// The hint for an API error code of the key-value store.
pub fn help(error_code: u16) -> (r: &'static str)
    ensures
        r@ == help_spec(error_code),
{
    match error_code {
        10010 | 10011 | 10012 | 10013 | 10014 | 10018 => {
            "Run `wrangler kv list` to see your existing namespaces with IDs"
        },
        10009 => "Run `wrangler kv list <namespaceID>` to see your existing keys",
        10022 | 10024 | 10030 => "See documentation",
        10021 | 10035 | 10038 => "Consider moving this namespace",
        10017 | 10026 => {
            "Workers KV is a paid feature, please upgrade your account (https://www.cloudflare.com/products/workers-kv/)"
        },
        _ => "",
    }
}

} // verus!
