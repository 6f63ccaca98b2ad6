use psbt_summary::{
    decode_base64, parse_psbt, parse_request, Network, Payment, PsbtDocument, PsbtError, Recipient,
};

// One input with a witness UTXO of 10,000 sat; outputs of 9,000 and 500 sat.
const SIMPLE: &str = "cHNidP8BAHQCAAAAARERERERERERERERERERERERERERERERERERERERERERAAAAAAD/////AigjAAAAAAAAFgAUAAAAAAAAAAAAAAAAAAAAAAAAAAH0AQAAAAAAABl2qRRi6QexXL8n1UJTmev28PtQ67iPGIisAAAAAAABAR8QJwAAAAAAABYAFHUedugZkZbUVJQcRdGzoyPxQzvWAAAA";
// One input, index 1 of a previous transaction with two outputs (7,000 and
// 8,000 sat), and a witness UTXO of 10,000 sat beside it; one output of 9,000.
const BOTH_UTXOS: &str = "cHNidP8BAFICAAAAAX4bparqhhK8ba9Xctg7AlqFBYcNJejKzDA+u0kAh2SfAQAAAAD/////ASgjAAAAAAAAFgAUAAAAAAAAAAAAAAAAAAAAAAAAAAEAAAAAAAEAdgIAAAABIiIiIiIiIiIiIiIiIiIiIiIiIiIiIiIiIiIiIiIiIiIFAAAAAVH/////AlgbAAAAAAAAGXapFGLpB7FcvyfVQlOZ6/bw+1DruI8YiKxAHwAAAAAAABepFDVF5uM7gyxHBQ8k0+65PJwDlIvHhwAAAAABAR8QJwAAAAAAABYAFHUedugZkZbUVJQcRdGzoyPxQzvWAAA=";
// The same without the witness UTXO.
const NON_WITNESS_ONLY: &str = "cHNidP8BAFICAAAAAX4bparqhhK8ba9Xctg7AlqFBYcNJejKzDA+u0kAh2SfAQAAAAD/////ASgjAAAAAAAAFgAUAAAAAAAAAAAAAAAAAAAAAAAAAAEAAAAAAAEAdgIAAAABIiIiIiIiIiIiIiIiIiIiIiIiIiIiIiIiIiIiIiIiIiIFAAAAAVH/////AlgbAAAAAAAAGXapFGLpB7FcvyfVQlOZ6/bw+1DruI8YiKxAHwAAAAAAABepFDVF5uM7gyxHBQ8k0+65PJwDlIvHhwAAAAAAAA==";
// The input names index 2 of that previous transaction, which has two outputs.
const SHORT_PREVIOUS: &str = "cHNidP8BAFICAAAAAX4bparqhhK8ba9Xctg7AlqFBYcNJejKzDA+u0kAh2SfAgAAAAD/////ASgjAAAAAAAAFgAUAAAAAAAAAAAAAAAAAAAAAAAAAAEAAAAAAAEAdgIAAAABIiIiIiIiIiIiIiIiIiIiIiIiIiIiIiIiIiIiIiIiIiIFAAAAAVH/////AlgbAAAAAAAAGXapFGLpB7FcvyfVQlOZ6/bw+1DruI8YiKxAHwAAAAAAABepFDVF5uM7gyxHBQ8k0+65PJwDlIvHhwAAAAAAAA==";
// The input has neither UTXO field.
const NO_UTXO: &str = "cHNidP8BAFICAAAAAX4bparqhhK8ba9Xctg7AlqFBYcNJejKzDA+u0kAh2SfAQAAAAD/////ASgjAAAAAAAAFgAUAAAAAAAAAAAAAAAAAAAAAAAAAAEAAAAAAAAA";
// A witness UTXO of 1,000 sat pays an output of 2,000 sat.
const OVERSPEND: &str = "cHNidP8BAFICAAAAARERERERERERERERERERERERERERERERERERERERERERAAAAAAD/////AdAHAAAAAAAAFgAUAAAAAAAAAAAAAAAAAAAAAAAAAAEAAAAAAAEBH+gDAAAAAAAAFgAUdR526BmRltRUlBxF0bOjI/FDO9YAAA==";
// A witness UTXO of 2,000 sat pays an output of 2,000 sat.
const EXACT: &str = "cHNidP8BAFICAAAAARERERERERERERERERERERERERERERERERERERERERERAAAAAAD/////AdAHAAAAAAAAFgAUAAAAAAAAAAAAAAAAAAAAAAAAAAEAAAAAAAEBH9AHAAAAAAAAFgAUdR526BmRltRUlBxF0bOjI/FDO9YAAA==";
// Three inputs (100, 50 and 25 sat; the second spends a data carrier) and
// six outputs of 1, 2, 3, 4, 5 and 0 sat: one per template, then a data carrier.
const TEMPLATES: &str = "cHNidP8BAP1MAQIAAAADEREREREREREREREREREREREREREREREREREREREREREAAAAAAP////8REREREREREREREREREREREREREREREREREREREREREQEAAAAA/////yIiIiIiIiIiIiIiIiIiIiIiIiIiIiIiIiIiIiIiIiIiAAAAAAD/////BgEAAAAAAAAAGXapFGLpB7FcvyfVQlOZ6/bw+1DruI8YiKwCAAAAAAAAABepFDVF5uM7gyxHBQ8k0+65PJwDlIvHhwMAAAAAAAAAFgAUdR526BmRltRUlBxF0bOjI/FDO9YEAAAAAAAAACIAIBhjFDwUxRZoBL0ZIDNW2hNsmFZ4zU0nobjGMpYEkDJiBQAAAAAAAAAiUSB5vmZ++dy7rFWgYpXOhwsHApv82y3OKNlZ8oFbFvgXmAAAAAAAAAAAB2oFaGVsbG8AAAAAAAEBH2QAAAAAAAAAFgAUdR526BmRltRUlBxF0bOjI/FDO9YAAQEQMgAAAAAAAAAHagVoZWxsbwABAR8ZAAAAAAAAABYAFHUedugZkZbUVJQcRdGzoyPxQzvWAAAAAAAAAA==";
// The first of two outputs is a data carrier.
const DATA_CARRIER_FIRST: &str = "cHNidP8BAGICAAAAARERERERERERERERERERERERERERERERERERERERERERAAAAAAD/////AgAAAAAAAAAAB2oFaGVsbG+EAwAAAAAAABYAFHUedugZkZbUVJQcRdGzoyPxQzvWAAAAAAABAR/oAwAAAAAAABYAFHUedugZkZbUVJQcRdGzoyPxQzvWAAAA";
const NO_OUTPUTS: &str = "cHNidP8BADMCAAAAARERERERERERERERERERERERERERERERERERERERERERAAAAAAD/////AAAAAAAAAQEf6AMAAAAAAAAWABR1HnboGZGW1FSUHEXRs6Mj8UM71gA=";
const NO_INPUTS: &str = "cHNidP8BACkCAAAAAAEAAAAAAAAAABYAFHUedugZkZbUVJQcRdGzoyPxQzvWAAAAAAAA";
// Two inputs of 2^64 - 1 sat each; one output of 2^64 - 1 sat.
const HUGE: &str = "cHNidP8BAHsCAAAAAhERERERERERERERERERERERERERERERERERERERERERAAAAAAD/////EREREREREREREREREREREREREREREREREREREREREREBAAAAAP////8B//////////8WABR1HnboGZGW1FSUHEXRs6Mj8UM71gAAAAAAAQEf//////////8WABR1HnboGZGW1FSUHEXRs6Mj8UM71gABAR///////////xYAFHUedugZkZbUVJQcRdGzoyPxQzvWAAA=";
// The same inputs; one output of 1 sat.
const HUGE_FEE: &str = "cHNidP8BAHsCAAAAAhERERERERERERERERERERERERERERERERERERERERERAAAAAAD/////EREREREREREREREREREREREREREREREREREREREREREBAAAAAP////8BAQAAAAAAAAAWABR1HnboGZGW1FSUHEXRs6Mj8UM71gAAAAAAAQEf//////////8WABR1HnboGZGW1FSUHEXRs6Mj8UM71gABAR///////////xYAFHUedugZkZbUVJQcRdGzoyPxQzvWAAA=";
// EXACT with one byte more, one byte less, and without its input map.
const TRAILING_BYTE: &str = "cHNidP8BAFICAAAAARERERERERERERERERERERERERERERERERERERERERERAAAAAAD/////AdAHAAAAAAAAFgAUAAAAAAAAAAAAAAAAAAAAAAAAAAEAAAAAAAEBH9AHAAAAAAAAFgAUdR526BmRltRUlBxF0bOjI/FDO9YAAAA=";
const TRUNCATED: &str = "cHNidP8BAFICAAAAARERERERERERERERERERERERERERERERERERERERERERAAAAAAD/////AdAHAAAAAAAAFgAUAAAAAAAAAAAAAAAAAAAAAAAAAAEAAAAAAAEBH9AHAAAAAAAAFgAUdR526BmRltRUlBxF0bOjI/FDO9YA";
const MISSING_INPUT_MAP: &str = "cHNidP8BAFICAAAAARERERERERERERERERERERERERERERERERERERERERERAAAAAAD/////AdAHAAAAAAAAFgAUAAAAAAAAAAAAAAAAAAAAAAAAAAEAAAAAAA==";
// EXACT with `psbx` for `psbt`.
const WRONG_MAGIC: &str = "cHNieP8BAFICAAAAARERERERERERERERERERERERERERERERERERERERERERAAAAAAD/////AdAHAAAAAAAAFgAUAAAAAAAAAAAAAAAAAAAAAAAAAAEAAAAAAAEBH9AHAAAAAAAAFgAUdR526BmRltRUlBxF0bOjI/FDO9YAAA==";
// A published BIP-174 example: two inputs, the first with a non-witness
// UTXO, the second with a witness UTXO; two outputs.
const BIP174: &str = "cHNidP8BAKACAAAAAqsJSaCMWvfEm4IS9Bfi8Vqz9cM9zxU4IagTn4d6W3vkAAAAAAD+////qwlJoIxa98SbghL0F+LxWrP1wz3PFTghqBOfh3pbe+QBAAAAAP7///8CYDvqCwAAAAAZdqkUdopAu9dAy+gdmI5x3ipNXHE5ax2IrI4kAAAAAAAAGXapFG9GILVT+glechue4O/p+gOcykWXiKwAAAAAAAEA3wIAAAABJoFxNx7f8oXpN63upLN7eAAMBWbLs61kZBcTykIXG/YAAAAAakcwRAIgcLIkUSPmv0dNYMW1DAQ9TGkaXSQ18Jo0p2YqncJReQoCIAEynKnazygL3zB0DsA5BCJCLIHLRYOUV663b8Eu3ZWzASECZX0RjTNXuOD0ws1G23s59tnDjZpwq8ubLeXcjb/kzjH+////AtPf9QUAAAAAGXapFNDFmQPFusKGh2DpD9UhpGZap2UgiKwA4fUFAAAAABepFDVF5uM7gyxHBQ8k0+65PJwDlIvHh7MuEwAAAQEgAOH1BQAAAAAXqRQ1RebjO4MsRwUPJNPuuTycA5SLx4cBBBYAFIXRNTfy4mVAWjTbr6nj3aAfuCMIACICAurVlmh8qAYEPtw94RbN8p1eklfBls0FXPaYyNAr8k6ZELSmumcAAACAAAAAgAIAAIAAIgIDlPYr6d8ZlSxVh3aK63aYBhrSxKJciU9H2MFitNchPQUQtKa6ZwAAAIABAACAAgAAgAA=";

fn paid(amount: u64, address: &str) -> Payment {
    Payment { amount, pay_to: Recipient::Address(address.to_string()) }
}

#[test]
fn one_input_two_outputs() {
    let s = parse_psbt(SIMPLE, None).unwrap();
    assert_eq!(s.fee, 500);
    assert_eq!(s.total_amount, 9_000);
    assert_eq!(s.pay_to_info.len(), 2);
    assert_eq!(s.txid, "84540b52d7c19e39e21a87ddc2274535dbc87a7180954097077b9fbc6b2fb929");
    assert_eq!(
        s.send_address,
        Recipient::Address("bc1qqqqqqqqqqqqqqqqqqqqqqqqqqqqqqqqpc02p7z".to_string())
    );
    assert_eq!(s.input_addresses, vec!["bc1qw508d6qejxtdg4y5r3zarvary0c5xw7kv8f3t4".to_string()]);
    assert_eq!(
        s.pay_to_info,
        vec![
            paid(9_000, "bc1qqqqqqqqqqqqqqqqqqqqqqqqqqqqqqqqpc02p7z"),
            paid(500, "1A1zP1eP5QGefi2DMPTfTL5SLmv7DivfNa"),
        ]
    );
}

#[test]
fn fee_and_outputs_add_up_to_inputs() {
    let s = parse_psbt(SIMPLE, None).unwrap();
    let outputs: u128 = s.pay_to_info.iter().map(|p| p.amount as u128).sum();
    assert_eq!(s.fee + outputs, 10_000);
    let s = parse_psbt(BIP174, None).unwrap();
    let outputs: u128 = s.pay_to_info.iter().map(|p| p.amount as u128).sum();
    assert_eq!(s.fee + outputs, 99_999_699 + 100_000_000);
}

#[test]
fn absent_network_is_mainnet() {
    assert_eq!(parse_psbt(SIMPLE, None), parse_psbt(SIMPLE, Some(Network::Bitcoin)));
    assert_eq!(parse_request(SIMPLE, None), parse_psbt(SIMPLE, Some(Network::Bitcoin)));
}

#[test]
fn summary_follows_the_network() {
    let s = parse_psbt(SIMPLE, Some(Network::Testnet)).unwrap();
    assert_eq!(s.input_addresses, vec!["tb1qw508d6qejxtdg4y5r3zarvary0c5xw7kxpjzsx".to_string()]);
    assert_eq!(
        s.pay_to_info,
        vec![
            paid(9_000, "tb1qqqqqqqqqqqqqqqqqqqqqqqqqqqqqqqqpjf3j93"),
            paid(500, "mpXwg4jMtRhuSpVq4xS3HFHmCmWp9NyGKt"),
        ]
    );
    assert_eq!(s.fee, 500);
    assert_eq!(s.txid, "84540b52d7c19e39e21a87ddc2274535dbc87a7180954097077b9fbc6b2fb929");
    assert_eq!(parse_psbt(SIMPLE, Some(Network::Signet)).unwrap().pay_to_info, s.pay_to_info);
    let r = parse_psbt(SIMPLE, Some(Network::Regtest)).unwrap();
    assert_eq!(
        r.pay_to_info,
        vec![
            paid(9_000, "bcrt1qqqqqqqqqqqqqqqqqqqqqqqqqqqqqqqqpsqgljc"),
            paid(500, "mpXwg4jMtRhuSpVq4xS3HFHmCmWp9NyGKt"),
        ]
    );
    assert_eq!(r.input_addresses, vec!["bcrt1qw508d6qejxtdg4y5r3zarvary0c5xw7kygt080".to_string()]);
}

#[test]
fn request_reads_the_selector() {
    assert_eq!(parse_request(SIMPLE, Some("testnet")), parse_psbt(SIMPLE, Some(Network::Testnet)));
    assert_eq!(parse_request(SIMPLE, Some("mainnet")), parse_psbt(SIMPLE, None));
    assert_eq!(parse_request(SIMPLE, Some("bitcoin")), parse_psbt(SIMPLE, None));
    assert_eq!(parse_request(SIMPLE, Some("regtest")), parse_psbt(SIMPLE, Some(Network::Regtest)));
}

#[test]
fn unknown_selector_fails_before_decoding() {
    assert_eq!(parse_request(SIMPLE, Some("main")), Err(PsbtError::UnknownNetwork));
    assert_eq!(parse_request("not-base64!!", Some("main")), Err(PsbtError::UnknownNetwork));
}

#[test]
fn malformed_base64_is_an_encoding_error() {
    assert_eq!(parse_psbt("not-base64!!", None), Err(PsbtError::Encoding));
    assert_eq!(parse_psbt("a", None), Err(PsbtError::Encoding));
    assert_eq!(parse_psbt("aGVs bG8=", None), Err(PsbtError::Encoding));
    assert_eq!(decode_base64("not-base64!!"), Err(PsbtError::Encoding));
}

#[test]
fn base64_of_other_bytes_is_a_format_error() {
    assert_eq!(
        parse_psbt("BwgJCgsMDQ4PEBESExQVFhcYGRobHB0eHyAhIiMkJSYnKCkqKywtLg==", None),
        Err(PsbtError::Format)
    );
    assert_eq!(parse_psbt("aGVsbG8=", None), Err(PsbtError::Format));
    assert_eq!(parse_psbt("", None), Err(PsbtError::Format));
    assert_eq!(parse_psbt("cHNidA==", None), Err(PsbtError::Format));
}

#[test]
fn wrong_magic_is_a_format_error() {
    assert!(parse_psbt(EXACT, None).is_ok());
    assert_eq!(parse_psbt(WRONG_MAGIC, None), Err(PsbtError::Format));
}

#[test]
fn broken_framing_is_a_format_error() {
    assert_eq!(parse_psbt(TRAILING_BYTE, None), Err(PsbtError::Format));
    assert_eq!(parse_psbt(TRUNCATED, None), Err(PsbtError::Format));
    assert_eq!(parse_psbt(MISSING_INPUT_MAP, None), Err(PsbtError::Format));
}

#[test]
fn transaction_without_outputs_is_a_format_error() {
    assert_eq!(parse_psbt(NO_OUTPUTS, None), Err(PsbtError::Format));
    let bytes = decode_base64(NO_OUTPUTS).unwrap();
    assert_eq!(PsbtDocument::deserialize(&bytes), Err(PsbtError::Format));
}

#[test]
fn transaction_without_inputs_pays_no_fee() {
    let s = parse_psbt(NO_INPUTS, None).unwrap();
    assert_eq!(s.fee, 0);
    assert_eq!(s.total_amount, 0);
    assert!(s.input_addresses.is_empty());
    assert_eq!(s.pay_to_info, vec![paid(0, "bc1qw508d6qejxtdg4y5r3zarvary0c5xw7kv8f3t4")]);
    assert_eq!(s.txid, "d7ec8000bd9650d85b23a0e9a83eac3555ea9611daaf0570378c42b582a90cfa");
}

#[test]
fn witness_utxo_wins_over_non_witness_utxo() {
    let s = parse_psbt(BOTH_UTXOS, None).unwrap();
    assert_eq!(s.fee, 1_000);
    assert_eq!(s.input_addresses, vec!["bc1qw508d6qejxtdg4y5r3zarvary0c5xw7kv8f3t4".to_string()]);
    assert_eq!(s.txid, "9450cacec205e75858e2ad8b72c6b2a4b732ae285555999bc9765538c0f2ef66");
}

#[test]
fn non_witness_utxo_is_read_at_the_outpoint_index() {
    // index 1 of the previous transaction is worth 8,000 sat, the output 9,000
    assert_eq!(parse_psbt(NON_WITNESS_ONLY, None), Err(PsbtError::InvalidAmount));
    let doc = PsbtDocument::deserialize(&decode_base64(NON_WITNESS_ONLY).unwrap()).unwrap();
    let utxo = doc.resolve_utxo(0).unwrap();
    assert_eq!(utxo.value, 8_000);
    assert_eq!(doc.total_input_value(), Ok(8_000));
    assert_eq!(
        doc.input_addresses(Network::Bitcoin),
        vec!["36YhUacEtcnkfhSbxwm11wDCexLGBLgJF6".to_string()]
    );
}

#[test]
fn short_previous_transaction_leaves_a_gap() {
    let doc = PsbtDocument::deserialize(&decode_base64(SHORT_PREVIOUS).unwrap()).unwrap();
    assert_eq!(doc.resolve_utxo(0), Err(PsbtError::ResolutionGap { input: 0 }));
    assert!(doc.input_addresses(Network::Bitcoin).is_empty());
    assert_eq!(doc.compute_fee(), Err(PsbtError::IncompleteData));
    assert_eq!(parse_psbt(SHORT_PREVIOUS, None), Err(PsbtError::IncompleteData));
}

#[test]
fn input_without_utxo_leaves_the_data_incomplete() {
    let doc = PsbtDocument::deserialize(&decode_base64(NO_UTXO).unwrap()).unwrap();
    assert_eq!(doc.resolve_utxo(0), Err(PsbtError::ResolutionGap { input: 0 }));
    assert_eq!(parse_psbt(NO_UTXO, None), Err(PsbtError::IncompleteData));
}

#[test]
fn outputs_above_inputs_are_an_invalid_amount() {
    assert_eq!(parse_psbt(OVERSPEND, None), Err(PsbtError::InvalidAmount));
    assert_eq!(parse_psbt(OVERSPEND, Some(Network::Testnet)), Err(PsbtError::InvalidAmount));
}

#[test]
fn outputs_equal_to_inputs_leave_no_fee() {
    let s = parse_psbt(EXACT, None).unwrap();
    assert_eq!(s.fee, 0);
    assert_eq!(s.total_amount, 2_000);
}

#[test]
fn every_template_has_an_address() {
    let s = parse_psbt(TEMPLATES, None).unwrap();
    assert_eq!(s.fee, 160);
    assert_eq!(s.total_amount, 1);
    assert_eq!(s.send_address, Recipient::Address("1A1zP1eP5QGefi2DMPTfTL5SLmv7DivfNa".to_string()));
    assert_eq!(
        s.pay_to_info,
        vec![
            paid(1, "1A1zP1eP5QGefi2DMPTfTL5SLmv7DivfNa"),
            paid(2, "36YhUacEtcnkfhSbxwm11wDCexLGBLgJF6"),
            paid(3, "bc1qw508d6qejxtdg4y5r3zarvary0c5xw7kv8f3t4"),
            paid(4, "bc1qrp33g0q5c5txsp9arysrx4k6zdkfs4nce4xj0gdcccefvpysxf3qccfmv3"),
            paid(5, "bc1p0xlxvlhemja6c4dqv22uapctqupfhlxm9h8z3k2e72q4k9hcz7vqzk5jj0"),
            Payment { amount: 0, pay_to: Recipient::Unrepresentable },
        ]
    );
    assert_eq!(s.txid, "51a4ac8ddd1a82bb509d8532d1e3409cde9d53bdbd2c06a61fdeac2a3d64efb2");
}

#[test]
fn input_addresses_keep_order_and_duplicates() {
    // the second input spends a data carrier: it counts toward the fee and has no address
    let s = parse_psbt(TEMPLATES, None).unwrap();
    assert_eq!(
        s.input_addresses,
        vec![
            "bc1qw508d6qejxtdg4y5r3zarvary0c5xw7kv8f3t4".to_string(),
            "bc1qw508d6qejxtdg4y5r3zarvary0c5xw7kv8f3t4".to_string(),
        ]
    );
    let s = parse_psbt(BIP174, None).unwrap();
    assert_eq!(
        s.input_addresses,
        vec![
            "1L2tGENeoh4mSoiUZrSbs1J3jazSdJH9QS".to_string(),
            "36YhUacEtcnkfhSbxwm11wDCexLGBLgJF6".to_string(),
        ]
    );
}

#[test]
fn unrepresentable_first_output_is_marked() {
    let s = parse_psbt(DATA_CARRIER_FIRST, None).unwrap();
    assert_eq!(s.send_address, Recipient::Unrepresentable);
    assert_eq!(s.send_address.label(), "unrepresentable");
    assert_eq!(s.total_amount, 0);
    assert_eq!(s.fee, 100);
    assert_eq!(
        s.pay_to_info,
        vec![
            Payment { amount: 0, pay_to: Recipient::Unrepresentable },
            paid(900, "bc1qw508d6qejxtdg4y5r3zarvary0c5xw7kv8f3t4"),
        ]
    );
    assert_eq!(s.pay_to_info[1].pay_to.label(), "bc1qw508d6qejxtdg4y5r3zarvary0c5xw7kv8f3t4");
}

#[test]
fn totals_beyond_64_bits_do_not_wrap() {
    let s = parse_psbt(HUGE, None).unwrap();
    assert_eq!(s.fee, 18_446_744_073_709_551_615);
    assert_eq!(s.total_amount, u64::MAX);
    let s = parse_psbt(HUGE_FEE, None).unwrap();
    assert_eq!(s.fee, 36_893_488_147_419_103_229);
    assert_eq!(s.total_amount, 1);
}

#[test]
fn published_example_is_summarized() {
    let s = parse_psbt(BIP174, None).unwrap();
    assert_eq!(s.txid, "fed6cd1fde4db4e13e7e800317e37f9cbd75ec364389670eeff80da993c7e560");
    assert_eq!(s.fee, 90_341);
    assert_eq!(s.total_amount, 199_900_000);
    assert_eq!(s.send_address.label(), "1BonMcawnmL4XMxEcofTWqTXxtk9K7hEWe");
    assert_eq!(
        s.pay_to_info,
        vec![
            paid(199_900_000, "1BonMcawnmL4XMxEcofTWqTXxtk9K7hEWe"),
            paid(9_358, "1B9N1re3RYdB7RPhsNS92vbYQegYWZW3og"),
        ]
    );
    let t = parse_psbt(BIP174, Some(Network::Testnet)).unwrap();
    assert_eq!(
        t.input_addresses,
        vec![
            "mzYqZHTdciW2DvC6HRQygvWNbab9U6KdQY".to_string(),
            "2Mx6uYKYGW5J6sV59e5NsdtCTsJYRxednbx".to_string(),
        ]
    );
    assert_eq!(t.send_address.label(), "mrKjeffvbnmKJURrLNdqLkfrptLrFtnkFx");
    assert_eq!(t.fee, s.fee);
    assert_eq!(t.txid, s.txid);
}

#[test]
fn parsing_twice_gives_the_same_summary() {
    assert_eq!(parse_psbt(BIP174, None), parse_psbt(BIP174, None));
    assert_eq!(parse_psbt(OVERSPEND, None), parse_psbt(OVERSPEND, None));
}

#[test]
fn base64_text_becomes_bytes() {
    assert_eq!(decode_base64("aGVsbG8="), Ok(b"hello".to_vec()));
    assert_eq!(decode_base64(""), Ok(Vec::new()));
    assert_eq!(decode_base64("cHNidP8="), Ok(vec![0x70, 0x73, 0x62, 0x74, 0xff]));
    // padding may be left out
    assert_eq!(decode_base64("aGVsbG8"), Ok(b"hello".to_vec()));
    // too much padding, trailing bits that are not zero, the URL-safe alphabet
    assert_eq!(decode_base64("aGVsbG8=="), Err(PsbtError::Encoding));
    assert_eq!(decode_base64("aGVsbG9="), Err(PsbtError::Encoding));
    assert_eq!(decode_base64("_-8="), Err(PsbtError::Encoding));
    assert_eq!(decode_base64("/+8="), Ok(vec![0xff, 0xef]));
}

#[test]
fn document_holds_what_the_bytes_say() {
    let doc = PsbtDocument::deserialize(&decode_base64(BOTH_UTXOS).unwrap()).unwrap();
    assert_eq!(doc.txid(), "9450cacec205e75858e2ad8b72c6b2a4b732ae285555999bc9765538c0f2ef66");
    let tx = doc.unsigned_tx();
    assert_eq!(tx.inputs.len(), 1);
    assert_eq!(
        tx.inputs[0].txid,
        "9f64870049bb3e30cccae8250d8705855a023bd87257af6dbc1286eaaaa51b7e"
    );
    assert_eq!(tx.inputs[0].vout, 1);
    assert_eq!(tx.outputs.len(), 1);
    assert_eq!(tx.outputs[0].value, 9_000);
    assert_eq!(
        tx.outputs[0].script_pubkey,
        vec![0x00, 0x14, 0, 0, 0, 0, 0, 0, 0, 0, 0, 0, 0, 0, 0, 0, 0, 0, 0, 0, 0, 0x01]
    );
    let records = doc.input_utxos();
    assert_eq!(records.len(), 1);
    let witness = records[0].witness_utxo.as_ref().unwrap();
    assert_eq!(witness.value, 10_000);
    assert_eq!(witness.script_pubkey.len(), 22);
    let previous = records[0].non_witness_utxo.as_ref().unwrap();
    assert_eq!(previous.len(), 2);
    assert_eq!(previous[0].value, 7_000);
    assert_eq!(previous[1].value, 8_000);
    assert_eq!(previous[1].script_pubkey.len(), 23);
    assert_eq!(doc.total_output_value(), 9_000);
}
