use vstd::prelude::*;
use vstd::string::StringExecFns;

verus! {

/// The usage text printed when help is asked for on the command line.
pub open spec fn spec_usage_message() -> Seq<char> {
    "Usage: cloudflare_dynamic_dns [options...] \nOptions: \n  --help, -h, ? \n      Display all available command line options \n  --cloudflare, -cf <path> \n      Read cloudflare json configurations from <path> \n  --config, -c <path> \n      Read configuration from <path> \n\n"@
}

/// The usage text, ready to print.
pub fn message_str() -> (r: String)
    ensures
        r@ == spec_usage_message(),
{
    String::from_str(
        "Usage: cloudflare_dynamic_dns [options...] \nOptions: \n  --help, -h, ? \n      Display all available command line options \n  --cloudflare, -cf <path> \n      Read cloudflare json configurations from <path> \n  --config, -c <path> \n      Read configuration from <path> \n\n",
    )
}

} // verus!
