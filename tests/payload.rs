use plim::payload::{
    PipelinePayload, make_base64_payload_for_create_pipeline_api,
    make_base64_payload_for_trigger_pipeline_api, make_native_payload_for_create_pipeline_api,
    make_native_payload_for_trigger_pipeline_api,
};
use plim::value::AnyValue;

fn pairs() -> Vec<(String, Option<AnyValue>)> {
    vec![
        ("k1".to_string(), Some(AnyValue::String("v1".to_string()))),
        ("k2".to_string(), Some(AnyValue::String("v2".to_string()))),
    ]
}

#[test]
fn native_payload_lists_pairs_in_order_without_encoding() {
    match make_native_payload_for_create_pipeline_api(&pairs(), "main") {
        PipelinePayload::Create { ref_name, variables } => {
            assert_eq!(ref_name, "main");
            let got: Vec<(String, String, bool)> = variables
                .iter()
                .map(|v| (v.key.clone(), v.value.to_string(), v.is_file))
                .collect();
            assert_eq!(
                got,
                vec![("k1".to_string(), "v1".to_string(), false), ("k2".to_string(), "v2".to_string(), false)]
            );
        }
        PipelinePayload::AnsibleVariables(_) => panic!("expected a create body"),
    }
}

#[test]
fn native_payload_skips_pairs_without_value() {
    let mut p = pairs();
    p.insert(1, ("none".to_string(), None));
    match make_native_payload_for_create_pipeline_api(&p, "dev") {
        PipelinePayload::Create { variables, .. } => assert_eq!(variables.len(), 2),
        PipelinePayload::AnsibleVariables(_) => panic!("expected a create body"),
    }
}

#[test]
fn base64_payload_encodes_text() {
    match make_base64_payload_for_create_pipeline_api("hi", "main", "DATA") {
        Ok(PipelinePayload::Create { ref_name, variables }) => {
            assert_eq!(ref_name, "main");
            assert_eq!(variables.len(), 1);
            assert_eq!(variables[0].key, "DATA");
            assert_eq!(variables[0].value.to_string(), "aGk=");
            assert!(variables[0].is_file);
        }
        _ => panic!("expected a create body"),
    }
}

#[test]
fn base64_payload_of_empty_text() {
    match make_base64_payload_for_create_pipeline_api("", "main", "DATA") {
        Ok(PipelinePayload::Create { variables, .. }) => assert_eq!(variables[0].value.to_string(), ""),
        _ => panic!("expected a create body"),
    }
}

#[test]
fn trigger_forms() {
    let native = make_native_payload_for_trigger_pipeline_api(&pairs(), "tok", "main");
    let got: Vec<(String, String)> = native.iter().map(|(k, v)| (k.clone(), v.to_string())).collect();
    assert_eq!(
        got,
        vec![
            ("variables[k1]".to_string(), "v1".to_string()),
            ("variables[k2]".to_string(), "v2".to_string()),
            ("token".to_string(), "tok".to_string()),
            ("ref".to_string(), "main".to_string()),
        ]
    );
    let b64 = make_base64_payload_for_trigger_pipeline_api("host: 1", "tok", "main", "INV");
    match b64 {
        Ok(f) => assert_eq!(
            f,
            vec![
                ("token".to_string(), "tok".to_string()),
                ("ref".to_string(), "main".to_string()),
                ("INV".to_string(), "aG9zdDogMQ==".to_string()),
            ]
        ),
        Err(_) => panic!("expected a form"),
    }
}
