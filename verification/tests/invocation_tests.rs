use cshell::invocation::{prepare_invocation, InvocationError, InvocationFailure};
use cshell::signing::ParamKind;
use cshell::tii::{args_from_text, ArgsError, Json};
use cshell::tii::{CORE_ADDRESS_REF, CORE_BYTES_REF, CORE_UTXO_REF, NAMESPACED_ADDRESS_REF, NAMESPACED_BYTES_REF, NAMESPACED_UTXO_REF};

fn sample_tii(bytes_ref: &str, address_ref: &str, utxo_ref: &str) -> String {
    format!(
        r#"{{
            "tii": {{ "version": "v1beta0" }},
            "protocol": {{ "name": "repro", "scope": "eryxcoop", "version": "1.0.0" }},
            "parties": {{ "user": {{}} }},
            "transactions": {{
                "demo": {{
                    "params": {{
                        "type": "object",
                        "properties": {{
                            "payload": {{ "$ref": "{bytes_ref}" }},
                            "recipient": {{ "$ref": "{address_ref}" }},
                            "source_utxo": {{ "$ref": "{utxo_ref}" }},
                            "quantity": {{ "type": "integer" }}
                        }},
                        "required": ["payload", "recipient", "source_utxo", "quantity"]
                    }},
                    "tir": {{ "content": "", "encoding": "hex", "version": "v1beta0" }}
                }}
            }},
            "profiles": {{}}
        }}"#
    )
}

fn sorted(mut ps: Vec<(String, ParamKind)>) -> Vec<(String, ParamKind)> {
    ps.sort_by(|a, b| a.0.cmp(&b.0));
    ps
}

#[test]
fn prepare_invocation_accepts_legacy_core_refs() {
    let result = prepare_invocation(&sample_tii(CORE_BYTES_REF, CORE_ADDRESS_REF, CORE_UTXO_REF), "demo", None);
    assert!(result.is_ok());
}

#[test]
fn prepare_invocation_accepts_namespaced_tii_refs() {
    let result = prepare_invocation(
        &sample_tii(NAMESPACED_BYTES_REF, NAMESPACED_ADDRESS_REF, NAMESPACED_UTXO_REF),
        "demo",
        None,
    );
    assert!(result.is_ok());
}

#[test]
fn invocation_parameters_and_their_kinds() {
    let ps = sorted(
        prepare_invocation(&sample_tii(NAMESPACED_BYTES_REF, NAMESPACED_ADDRESS_REF, NAMESPACED_UTXO_REF), "demo", None)
            .unwrap(),
    );
    assert_eq!(
        ps,
        vec![
            ("payload".to_string(), ParamKind::Bytes),
            ("quantity".to_string(), ParamKind::Integer),
            ("recipient".to_string(), ParamKind::Address),
            ("source_utxo".to_string(), ParamKind::UtxoRef),
            ("user".to_string(), ParamKind::Address),
        ]
    );
}

#[test]
fn unknown_refs_become_unsupported_parameters() {
    let ps = sorted(
        prepare_invocation(
            &sample_tii(CORE_BYTES_REF, CORE_ADDRESS_REF, "https://tx3.land/specs/v1beta0/tii#/$defs/Unknown"),
            "demo",
            None,
        )
        .unwrap(),
    );
    assert_eq!(ps[3], ("source_utxo".to_string(), ParamKind::Other));
}

#[test]
fn invocation_refusals() {
    assert_eq!(prepare_invocation("{ not json", "demo", None), Err(InvocationError::InvalidJson));
    assert_eq!(
        prepare_invocation("[1, 2]", "demo", None),
        Err(InvocationError::Invocation(InvocationFailure::InvalidTii))
    );
    let tii = sample_tii(CORE_BYTES_REF, CORE_ADDRESS_REF, CORE_UTXO_REF);
    assert_eq!(prepare_invocation(&tii, "other", None), Err(InvocationError::Invocation(InvocationFailure::UnknownTx)));
    assert_eq!(
        prepare_invocation(&tii, "demo", Some("mainnet")),
        Err(InvocationError::Invocation(InvocationFailure::UnknownProfile))
    );
}

#[test]
fn arguments_read_from_json_text() {
    let args = args_from_text(r#"{"quantity": 5, "payload": "ab"}"#).unwrap();
    assert_eq!(args.len(), 2);
    let quantity = args.iter().find(|(k, _)| k == "quantity").unwrap();
    assert!(matches!(&quantity.1, Json::Number(n) if n == "5"));
    let payload = args.iter().find(|(k, _)| k == "payload").unwrap();
    assert!(matches!(&payload.1, Json::String(s) if s == "ab"));
    assert_eq!(args_from_text("[1]").err(), Some(ArgsError::NotAnObject));
    assert_eq!(args_from_text("{").err(), Some(ArgsError::InvalidJson));
    assert_eq!(ArgsError::InvalidJson.message(), "parsing json args string");
}
