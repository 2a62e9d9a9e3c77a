use crate::decimal::{
    decimal, is_canonical_numeral, lemma_decimal_reads_back, numeral_value, push_decimal,
};
use vstd::prelude::*;
use vstd::string::StringExecFns;

verus! {

/// The public address at which the application is reached.
pub struct ApplicationBaseUrl(pub String);

/// The `host:port` address the server listens on: the host, a colon, and
/// the port as a base-10 numeral without leading zeros that reads back as
/// the port.
pub fn listen_address(host: &str, port: u16) -> (address: String)
    ensures
        address@ == host@ + ":"@ + decimal(port as nat),
        address@.len() > host@.len(),
        address@.subrange(0, host@.len() as int) == host@,
        address@[host@.len() as int] == ':',
        is_canonical_numeral(address@.skip(host@.len() as int + 1)),
        numeral_value(address@.skip(host@.len() as int + 1)) == port,
{
    let mut address = String::from_str(host);
    address.append(":");
    push_decimal(&mut address, port as u64);
    proof {
        reveal_strlit(":");
        lemma_decimal_reads_back(port as nat);
        assert(address@.skip(host@.len() as int + 1) =~= decimal(port as nat));
        assert(address@.subrange(0, host@.len() as int) =~= host@);
    }
    address
}

} // verus!
