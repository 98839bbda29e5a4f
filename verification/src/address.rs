//! Bitcoin networks and payout addresses.

use crate::text::{chars_of, has_prefix, same_text, to_ascii_lowercase};
use std::str::FromStr;
use stratum_apps::stratum_core::bitcoin::address::NetworkUnchecked;
use vstd::prelude::*;
use vstd::string::StringExecFns;

verus! {

/// The networks a pool can run on.
#[derive(Clone, Copy, Debug, PartialEq, Eq, Structural)]
pub enum Network {
    Bitcoin,
    Testnet,
    Testnet4,
    Signet,
    Regtest,
}

/// Why an address gives no payout script. Each variant carries the message of the `bitcoin`
/// crate.
#[derive(Clone, Debug)]
pub enum AddressFailure {
    Malformed(String),
    WrongNetwork(String),
}

/// An [`AddressFailure`] with its message as a sequence of characters.
pub ghost enum AddressFault {
    Malformed(Seq<char>),
    WrongNetwork(Seq<char>),
}

impl View for AddressFailure {
    type V = AddressFault;

    open spec fn view(&self) -> AddressFault {
        match self {
            AddressFailure::Malformed(message) => AddressFault::Malformed(message@),
            AddressFailure::WrongNetwork(message) => AddressFault::WrongNetwork(message@),
        }
    }
}

/// The payout script of an address on a network, as the `bitcoin` crate reads the address.
pub uninterp spec fn address_script(value: Seq<char>, network: Network) -> Result<
    Seq<u8>,
    AddressFault,
>;

/// Reads an address with `Address::from_str`, checks its network with `Address::require_network`
/// and takes its script with `Address::script_pubkey`. Claimed: which of the three ends the
/// reading, the script and the messages depend on the address text and the network alone.
#[verifier::external_body]
fn read_address(value: &str, network: Network) -> (script: Result<Vec<u8>, AddressFailure>)
    ensures
        match script {
            Ok(bytes) => address_script(value@, network) == Ok::<Seq<u8>, AddressFault>(bytes@),
            Err(failure) => address_script(value@, network) == Err::<Seq<u8>, AddressFault>(
                failure@,
            ),
        },
{
    let required = match network {
        Network::Bitcoin => stratum_apps::stratum_core::bitcoin::Network::Bitcoin,
        Network::Testnet => stratum_apps::stratum_core::bitcoin::Network::Testnet,
        Network::Testnet4 => stratum_apps::stratum_core::bitcoin::Network::Testnet4,
        Network::Signet => stratum_apps::stratum_core::bitcoin::Network::Signet,
        Network::Regtest => stratum_apps::stratum_core::bitcoin::Network::Regtest,
    };
    stratum_apps::stratum_core::bitcoin::Address::<NetworkUnchecked>::from_str(value)
        .map_err(|error| AddressFailure::Malformed(error.to_string()))?
        .require_network(required)
        .map_err(|error| AddressFailure::WrongNetwork(error.to_string()))
        .map(|address| address.script_pubkey().into_bytes())
}

/// The network that a name stands for, whatever the case of its letters.
pub open spec fn network_named(name: Seq<char>) -> Option<Network> {
    let lower = crate::text::lowered(name);
    if lower == "mainnet"@ || lower == "bitcoin"@ {
        Some(Network::Bitcoin)
    } else if lower == "testnet"@ || lower == "testnet3"@ {
        Some(Network::Testnet)
    } else if lower == "testnet4"@ {
        Some(Network::Testnet4)
    } else if lower == "signet"@ {
        Some(Network::Signet)
    } else if lower == "regtest"@ {
        Some(Network::Regtest)
    } else {
        None
    }
}

/// The message for a network name that stands for no network.
pub open spec fn unsupported_network(name: Seq<char>) -> Seq<char> {
    "unsupported Bitcoin network '"@ + name + "'"@
}

/// The network that `value` names.
pub fn parse_network(value: &str) -> (network: Result<Network, String>)
    ensures
        match network {
            Ok(n) => network_named(value@) == Some(n),
            Err(message) => network_named(value@) is None && message@ == unsupported_network(
                value@,
            ),
        },
{
    let lower = to_ascii_lowercase(value);
    let name = lower.as_str();
    if same_text(name, "mainnet") || same_text(name, "bitcoin") {
        Ok(Network::Bitcoin)
    } else if same_text(name, "testnet") || same_text(name, "testnet3") {
        Ok(Network::Testnet)
    } else if same_text(name, "testnet4") {
        Ok(Network::Testnet4)
    } else if same_text(name, "signet") {
        Ok(Network::Signet)
    } else if same_text(name, "regtest") {
        Ok(Network::Regtest)
    } else {
        let mut message = String::new();
        message.append("unsupported Bitcoin network '");
        message.append(value);
        message.append("'");
        assert(message@ =~= unsupported_network(value@));
        Err(message)
    }
}

/// The message for an address that gives no script.
pub open spec fn address_message(value: Seq<char>, fault: AddressFault) -> Seq<char> {
    match fault {
        AddressFault::Malformed(reason) => "invalid payout address '"@ + value + "': "@ + reason,
        AddressFault::WrongNetwork(reason) => "wrong-network payout address '"@ + value + "': "@
            + reason,
    }
}

/// The payout script of an address on the network called `network`, or the message that tells
/// why there is none.
pub open spec fn payout_script(value: Seq<char>, network: Seq<char>) -> Result<
    Seq<u8>,
    Seq<char>,
> {
    match network_named(network) {
        None => Err(unsupported_network(network)),
        Some(n) => script_or_message(value, address_script(value, n)),
    }
}

/// What reading the address `value` with outcome `read` amounts to.
pub open spec fn script_or_message(
    value: Seq<char>,
    read: Result<Seq<u8>, AddressFault>,
) -> Result<Seq<u8>, Seq<char>> {
    match read {
        Ok(script) => Ok(script),
        Err(fault) => Err(address_message(value, fault)),
    }
}

/// Whether a result holds the text or the bytes that `expected` says.
pub open spec fn same_outcome(
    result: Result<Vec<u8>, String>,
    expected: Result<Seq<u8>, Seq<char>>,
) -> bool {
    match result {
        Ok(bytes) => expected == Ok::<Seq<u8>, Seq<char>>(bytes@),
        Err(message) => expected == Err::<Seq<u8>, Seq<char>>(message@),
    }
}

/// Puts the reading of the address `value` into the words of the pool.
pub fn describe_address(value: &str, read: Result<Vec<u8>, AddressFailure>) -> (script: Result<
    Vec<u8>,
    String,
>)
    ensures
        match read {
            Ok(bytes) => script matches Ok(b) && b@ == bytes@,
            Err(failure) => script matches Err(m) && m@ == address_message(value@, failure@),
        },
{
    match read {
        Ok(bytes) => Ok(bytes),
        Err(failure) => {
            let mut message = String::new();
            match failure {
                AddressFailure::Malformed(reason) => {
                    message.append("invalid payout address '");
                    message.append(value);
                    message.append("': ");
                    message.append(reason.as_str());
                },
                AddressFailure::WrongNetwork(reason) => {
                    message.append("wrong-network payout address '");
                    message.append(value);
                    message.append("': ");
                    message.append(reason.as_str());
                },
            }
            assert(message@ =~= address_message(value@, failure@));
            Err(message)
        },
    }
}

/// The payout script of the address `value` on the network called `network`.
pub fn parse_address(value: &str, network: &str) -> (script: Result<Vec<u8>, String>)
    ensures
        same_outcome(script, payout_script(value@, network@)),
{
    match parse_network(network) {
        Ok(n) => describe_address(value, read_address(value, n)),
        Err(message) => Err(message),
    }
}

/// Whether a text is meant as an address, well-formed or not.
pub open spec fn is_address_like(value: Seq<char>) -> bool {
    let lower = crate::text::lowered(value);
    ||| crate::text::starts_with(lower, "bc1"@)
    ||| crate::text::starts_with(lower, "tb1"@)
    ||| crate::text::starts_with(lower, "bcrt1"@)
    ||| value.len() > 0 && (value[0] == '1' || value[0] == '3' || value[0] == 'm' || value[0] == 'n'
        || value[0] == '2')
}

/// Whether `value` is meant as an address.
pub fn looks_like_address(value: &str) -> (meant: bool)
    ensures
        meant == is_address_like(value@),
{
    let lower = to_ascii_lowercase(value);
    let lower_chars = chars_of(lower.as_str());
    if has_prefix(&lower_chars, "bc1") || has_prefix(&lower_chars, "tb1") || has_prefix(
        &lower_chars,
        "bcrt1",
    ) {
        return true;
    }
    let chars = chars_of(value);
    if chars.len() == 0 {
        return false;
    }
    let first = chars[0];
    first == '1' || first == '3' || first == 'm' || first == 'n' || first == '2'
}

/// A text is meant as an address if and only if it starts with `bc1`, `tb1` or `bcrt1`, in letters
/// of either case, or with one of the characters `1`, `2`, `3`, `m` and `n`.
pub proof fn addresses_are_known_by_how_they_start(value: Seq<char>)
    ensures
        ({
            let b = |k: int| value[k] == 'b' || value[k] == 'B';
            let c = |k: int| value[k] == 'c' || value[k] == 'C';
            let r = |k: int| value[k] == 'r' || value[k] == 'R';
            let t = |k: int| value[k] == 't' || value[k] == 'T';
            let bc1 = value.len() >= 3 && b(0) && c(1) && value[2] == '1';
            let tb1 = value.len() >= 3 && t(0) && b(1) && value[2] == '1';
            let bcrt1 = value.len() >= 5 && b(0) && c(1) && r(2) && t(3) && value[4] == '1';
            is_address_like(value) <==> bc1 || tb1 || bcrt1 || value.len() > 0 && (value[0] == '1'
                || value[0] == '2' || value[0] == '3' || value[0] == 'm' || value[0] == 'n')
        }),
{
    let lower = crate::text::lowered(value);
    reveal_strlit("bc1");
    reveal_strlit("tb1");
    reveal_strlit("bcrt1");
    if value.len() >= 3 {
        assert(lower.take(3) == "bc1"@ <==> lower[0] == 'b' && lower[1] == 'c' && lower[2] == '1')
            by {
            if lower[0] == 'b' && lower[1] == 'c' && lower[2] == '1' {
                assert(lower.take(3) =~= "bc1"@);
            } else {
                assert(lower.take(3)[0] == lower[0] && lower.take(3)[1] == lower[1] && lower.take(
                    3,
                )[2] == lower[2]);
            }
        }
        assert(lower.take(3) == "tb1"@ <==> lower[0] == 't' && lower[1] == 'b' && lower[2] == '1')
            by {
            if lower[0] == 't' && lower[1] == 'b' && lower[2] == '1' {
                assert(lower.take(3) =~= "tb1"@);
            } else {
                assert(lower.take(3)[0] == lower[0] && lower.take(3)[1] == lower[1] && lower.take(
                    3,
                )[2] == lower[2]);
            }
        }
    }
    if value.len() >= 5 {
        let five = lower.take(5);
        assert(five == "bcrt1"@ <==> lower[0] == 'b' && lower[1] == 'c' && lower[2] == 'r'
            && lower[3] == 't' && lower[4] == '1') by {
            if lower[0] == 'b' && lower[1] == 'c' && lower[2] == 'r' && lower[3] == 't' && lower[4]
                == '1' {
                assert(five =~= "bcrt1"@);
            } else {
                assert(five[0] == lower[0] && five[1] == lower[1] && five[2] == lower[2] && five[3]
                    == lower[3] && five[4] == lower[4]);
            }
        }
    }
}

/// Each network is known by its own names, whatever the case of their letters, and by no others.
pub proof fn networks_are_known_by_their_names(name: Seq<char>)
    ensures
        ({
            let lower = crate::text::lowered(name);
            let found = network_named(name);
            &&& found == Some(Network::Bitcoin) <==> lower == "mainnet"@ || lower == "bitcoin"@
            &&& found == Some(Network::Testnet) <==> lower == "testnet"@ || lower == "testnet3"@
            &&& found == Some(Network::Testnet4) <==> lower == "testnet4"@
            &&& found == Some(Network::Signet) <==> lower == "signet"@
            &&& found == Some(Network::Regtest) <==> lower == "regtest"@
        }),
{
    reveal_strlit("mainnet");
    reveal_strlit("bitcoin");
    reveal_strlit("testnet");
    reveal_strlit("testnet3");
    reveal_strlit("testnet4");
    reveal_strlit("signet");
    reveal_strlit("regtest");
    assert("mainnet"@[0] == 'm');
    assert("bitcoin"@[0] == 'b');
    assert("testnet"@[0] == 't');
    assert("testnet3"@[7] == '3');
    assert("testnet4"@[7] == '4');
    assert("regtest"@[0] == 'r');
    assert("testnet"@ != "mainnet"@);
    assert("testnet"@ != "bitcoin"@);
    assert("testnet3"@ != "testnet4"@);
    assert("regtest"@ != "mainnet"@);
    assert("regtest"@ != "bitcoin"@);
    assert("regtest"@ != "testnet"@);
    assert("testnet4"@.len() == 8);
    assert("signet"@.len() == 6);
}

/// The case of the letters of a network's name makes no difference.
pub proof fn network_names_are_read_in_either_case(name: Seq<char>)
    ensures
        network_named(crate::text::lowered(name)) == network_named(name),
{
    let lower = crate::text::lowered(name);
    assert(crate::text::lowered(lower) =~= lower);
}

/// An address has the script that it has on the network of the given name. Without such a network,
/// or without a script, there is a message that names the network or the address.
pub proof fn scripts_are_those_of_the_named_network(
    value: Seq<char>,
    network: Seq<char>,
    script: Seq<u8>,
)
    ensures
        payout_script(value, network) == Ok::<Seq<u8>, Seq<char>>(script) <==> (network_named(
            network,
        ) matches Some(n) && address_script(value, n) == Ok::<Seq<u8>, AddressFault>(script)),
        network_named(network) is None ==> payout_script(value, network) == Err::<
            Seq<u8>,
            Seq<char>,
        >("unsupported Bitcoin network '"@ + network + "'"@),
        network_named(network) matches Some(n) ==> {
            &&& address_script(value, n) matches Err(AddressFault::Malformed(reason))
                ==> payout_script(value, network) == Err::<Seq<u8>, Seq<char>>(
                "invalid payout address '"@ + value + "': "@ + reason,
            )
            &&& address_script(value, n) matches Err(AddressFault::WrongNetwork(reason))
                ==> payout_script(value, network) == Err::<Seq<u8>, Seq<char>>(
                "wrong-network payout address '"@ + value + "': "@ + reason,
            )
        },
{
}

/// An address that is read has the script that it has on the network of the given name, byte for
/// byte; and only a text that is meant as an address is taken for one.
pub proof fn addresses_are_read_on_their_network(
    value: &str,
    name: &str,
    script: Result<Vec<u8>, String>,
    network: Result<Network, String>,
    meant: bool,
)
    requires
        call_ensures(parse_address, (value, name), script),
        call_ensures(parse_network, (name,), network),
        call_ensures(looks_like_address, (value,), meant),
    ensures
        script is Ok <==> network is Ok && address_script(value@, network->Ok_0) is Ok,
        script is Ok ==> script->Ok_0@ == address_script(value@, network->Ok_0)->Ok_0,
        network is Ok <==> network_named(name@) is Some,
        network is Ok ==> network->Ok_0 == network_named(name@)->0,
        network is Err ==> network->Err_0@ == "unsupported Bitcoin network '"@ + name@ + "'"@,
        network is Err ==> script is Err && script->Err_0@ == network->Err_0@,
        network is Ok ==> {
            &&& address_script(value@, network->Ok_0) matches Err(AddressFault::Malformed(reason))
                ==> script is Err && script->Err_0@ == "invalid payout address '"@ + value@
                + "': "@ + reason
            &&& address_script(value@, network->Ok_0) matches Err(
                AddressFault::WrongNetwork(reason),
            ) ==> script is Err && script->Err_0@ == "wrong-network payout address '"@ + value@
                + "': "@ + reason
        },
        meant ==> value@.len() > 0,
        meant <==> is_address_like(value@),
{
    addresses_are_known_by_how_they_start(value@);
}

} // verus!
