//! The texts with which the wallet shows its keys and the state of their
//! addresses. Keys, addresses and amounts come already rendered; numbers of
//! rolls are written in decimal.
use vstd::prelude::*;

verus! {

/// The decimal digit `d`.
pub open spec fn digit_text(d: nat) -> Seq<char> {
    if d == 0 {
        "0"@
    } else if d == 1 {
        "1"@
    } else if d == 2 {
        "2"@
    } else if d == 3 {
        "3"@
    } else if d == 4 {
        "4"@
    } else if d == 5 {
        "5"@
    } else if d == 6 {
        "6"@
    } else if d == 7 {
        "7"@
    } else if d == 8 {
        "8"@
    } else {
        "9"@
    }
}

/// `n` in decimal, without leading zeros.
pub open spec fn decimal_text(n: nat) -> Seq<char>
    decreases n,
{
    if n < 10 {
        digit_text(n)
    } else {
        decimal_text(n / 10) + digit_text(n % 10)
    }
}

fn append_digit(s: &mut String, d: u64)
    requires
        d < 10,
    ensures
        final(s)@ == old(s)@ + digit_text(d as nat),
{
    if d == 0 {
        s.append("0");
    } else if d == 1 {
        s.append("1");
    } else if d == 2 {
        s.append("2");
    } else if d == 3 {
        s.append("3");
    } else if d == 4 {
        s.append("4");
    } else if d == 5 {
        s.append("5");
    } else if d == 6 {
        s.append("6");
    } else if d == 7 {
        s.append("7");
    } else if d == 8 {
        s.append("8");
    } else {
        s.append("9");
    }
}

/// Appends `n` in decimal to `s`.
pub fn append_decimal(s: &mut String, n: u64)
    ensures
        final(s)@ == old(s)@ + decimal_text(n as nat),
    decreases n,
{
    if n >= 10 {
        append_decimal(s, n / 10);
        append_digit(s, n % 10);
        proof {
            assert(old(s)@ + decimal_text((n / 10) as nat) + digit_text((n % 10) as nat) =~= old(s)@
                + decimal_text(n as nat));
        }
    } else {
        append_digit(s, n);
    }
}

/// `n` in decimal.
pub fn u64_text(n: u64) -> (s: String)
    ensures
        s@ == decimal_text(n as nat),
{
    let mut s = String::new();
    append_decimal(&mut s, n);
    proof {
        assert(Seq::<char>::empty() + decimal_text(n as nat) =~= decimal_text(n as nat));
    }
    s
}

/// The state of an address, one indented line per item.
pub open spec fn address_state_text(
    final_balance: Seq<char>,
    candidate_balance: Seq<char>,
    locked_balance: Seq<char>,
    final_rolls: u64,
    candidate_rolls: u64,
    active_rolls: Option<u64>,
) -> Seq<char> {
    "    final balance: "@ + final_balance + "\n"@ + "    candidate balance: "@ + candidate_balance
        + "\n"@ + "    locked balance: "@ + locked_balance + "\n"@ + "    final rolls: "@ + decimal_text(
        final_rolls as nat,
    ) + "\n"@ + "    candidate rolls: "@ + decimal_text(candidate_rolls as nat) + "\n"@ + match active_rolls {
        Some(a) => "    active rolls: "@ + decimal_text(a as nat) + "\n"@,
        None => "    No active roll\n"@,
    }
}

/// Renders the state of an address: its final, candidate and locked
/// balances (already rendered), its final and candidate rolls, and its active
/// rolls if it has any.
pub fn wrapped_address_state_text(
    final_balance: &str,
    candidate_balance: &str,
    locked_balance: &str,
    final_rolls: u64,
    candidate_rolls: u64,
    active_rolls: Option<u64>,
) -> (s: String)
    ensures
        s@ == address_state_text(
            final_balance@,
            candidate_balance@,
            locked_balance@,
            final_rolls,
            candidate_rolls,
            active_rolls,
        ),
{
    let mut s = String::new();
    s.append("    final balance: ");
    s.append(final_balance);
    s.append("\n");
    s.append("    candidate balance: ");
    s.append(candidate_balance);
    s.append("\n");
    s.append("    locked balance: ");
    s.append(locked_balance);
    s.append("\n");
    s.append("    final rolls: ");
    append_decimal(&mut s, final_rolls);
    s.append("\n");
    s.append("    candidate rolls: ");
    append_decimal(&mut s, candidate_rolls);
    s.append("\n");
    match active_rolls {
        Some(a) => {
            s.append("    active rolls: ");
            append_decimal(&mut s, a);
            s.append("\n");
        },
        None => {
            s.append("    No active roll\n");
        },
    }
    proof {
        assert(s@ =~= address_state_text(
            final_balance@,
            candidate_balance@,
            locked_balance@,
            final_rolls,
            candidate_rolls,
            active_rolls,
        ));
    }
    s
}

/// One key of the wallet, rendered: its private key, public key and address,
/// and the state of the address if the node reported one.
pub struct KeyInfoText {
    pub private_key: String,
    pub public_key: String,
    pub address: String,
    pub state: Option<String>,
}

/// The lines that show one key.
pub open spec fn key_info_text(k: KeyInfoText) -> Seq<char> {
    "\n"@ + "Private key: "@ + k.private_key@ + "\n"@ + "Public key: "@ + k.public_key@ + "\n"@
        + "Address: "@ + k.address@ + "\n"@ + match k.state {
        Some(st) => "State: \n"@ + st@,
        None => "No balance info available. Is your node running?\n"@,
    }
}

/// The lines that show the keys, in order.
pub open spec fn keys_info_text(keys: Seq<KeyInfoText>) -> Seq<char>
    decreases keys.len(),
{
    if keys.len() == 0 {
        Seq::empty()
    } else {
        keys_info_text(keys.drop_last()) + key_info_text(keys.last())
    }
}

/// What the wallet shows of its keys: a warning, then each key.
pub open spec fn wallet_info_text(keys: Seq<KeyInfoText>) -> Seq<char> {
    "WARNING: do not share your private keys\n"@ + keys_info_text(keys)
}

fn append_key_info(s: &mut String, k: &KeyInfoText)
    ensures
        final(s)@ == old(s)@ + key_info_text(*k),
{
    s.append("\n");
    s.append("Private key: ");
    s.append(k.private_key.as_str());
    s.append("\n");
    s.append("Public key: ");
    s.append(k.public_key.as_str());
    s.append("\n");
    s.append("Address: ");
    s.append(k.address.as_str());
    s.append("\n");
    match &k.state {
        Some(st) => {
            s.append("State: \n");
            s.append(st.as_str());
        },
        None => {
            s.append("No balance info available. Is your node running?\n");
        },
    }
    proof {
        assert(final(s)@ =~= old(s)@ + key_info_text(*k));
    }
}

/// Renders the wallet's keys with the state of their addresses.
pub fn wallet_info(keys: &Vec<KeyInfoText>) -> (s: String)
    ensures
        s@ == wallet_info_text(keys@),
{
    let mut s = String::new();
    s.append("WARNING: do not share your private keys\n");
    let n = keys.len();
    let mut i: usize = 0;
    while i < n
        invariant
            n == keys@.len(),
            i <= n,
            s@ == "WARNING: do not share your private keys\n"@ + keys_info_text(keys@.take(i as int)),
        decreases n - i,
    {
        append_key_info(&mut s, &keys[i]);
        proof {
            assert(keys@.take(i + 1).drop_last() =~= keys@.take(i as int));
            assert(keys@.take(i + 1).last() == keys@[i as int]);
        }
        i = i + 1;
    }
    proof {
        assert(keys@.take(n as int) =~= keys@);
    }
    s
}

} // verus!
