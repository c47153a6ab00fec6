//! The pipeline payload builder: the bodies sent to the pipeline API.

use vstd::prelude::*;
use crate::value::{AnyValue, ValueModel};
use crate::views::{PairModel, pairs_view};
use crate::ansible::AnsibleConfig;
use crate::errors::PlimErrorKind;
use crate::external::{base64_encode, base64_standard};
use vstd::string::*;

verus! {

/// One pipeline variable: a key, a value, and whether it is passed as a file.
pub struct PipelineVariable {
    pub key: String,
    pub value: AnyValue,
    pub is_file: bool,
}

/// The model of a pipeline variable.
pub type VariableModel = (Seq<char>, ValueModel, bool);

impl View for PipelineVariable {
    type V = VariableModel;

    open spec fn view(&self) -> VariableModel {
        (self.key@, self.value@, self.is_file)
    }
}

/// A request body for the pipeline API.
pub enum PipelinePayload {
    /// `{ref, variables: [{key, value}, ...]}`; a file variable also
    /// carries `variable_type: "file"`.
    Create { ref_name: String, variables: Vec<PipelineVariable> },
    /// `{variables: <ansible settings as a map>}`.
    AnsibleVariables(AnsibleConfig),
}

/// The model of a request body.
pub enum PayloadModel {
    Create(Seq<char>, Seq<VariableModel>),
    AnsibleVariables(AnsibleConfig),
}

/// The models of a list of variables.
pub open spec fn variables_view(s: Seq<PipelineVariable>) -> Seq<VariableModel> {
    s.map_values(|v: PipelineVariable| v@)
}

impl View for PipelinePayload {
    type V = PayloadModel;

    open spec fn view(&self) -> PayloadModel {
        match self {
            PipelinePayload::Create { ref_name, variables } => PayloadModel::Create(
                ref_name@,
                variables_view(variables@),
            ),
            PipelinePayload::AnsibleVariables(c) => PayloadModel::AnsibleVariables(*c),
        }
    }
}

/// The UTF-8 bytes of a text.
pub open spec fn utf8_of(s: Seq<char>) -> Seq<u8> {
    vstd::utf8::encode_utf8(s)
}

/// Whether a text is short enough to be base64-encoded in memory.
pub open spec fn encodable(s: Seq<char>) -> bool {
    utf8_of(s).len() <= usize::MAX / 2
}

/// The body that passes `text`, base64-encoded, as a file variable named
/// `key` on `ref_name`.
pub open spec fn base64_payload(text: Seq<char>, ref_name: Seq<char>, key: Seq<char>) -> PayloadModel {
    PayloadModel::Create(ref_name, seq![(key, ValueModel::Text(base64_standard(utf8_of(text))), true)])
}

/// The variables of resolved pairs: one per pair that has a value, in order.
pub open spec fn native_variables(s: Seq<PairModel>) -> Seq<VariableModel>
    decreases s.len(),
{
    if s.len() == 0 {
        Seq::empty()
    } else {
        native_variables(s.drop_last()) + match s.last().1 {
            Some(v) => seq![(s.last().0, v, false)],
            None => Seq::empty(),
        }
    }
}

/// The body that passes each resolved pair with a value as a plain
/// variable on `ref_name`.
pub open spec fn native_payload(s: Seq<PairModel>, ref_name: Seq<char>) -> PayloadModel {
    PayloadModel::Create(ref_name, native_variables(s))
}

/// The body with `json_string` base64-encoded as a file variable named
/// `json_data_base64_key`; an internal error when the text is too long to
/// encode in memory.
pub fn make_base64_payload_for_create_pipeline_api(
    json_string: &str,
    ref_name: &str,
    json_data_base64_key: &str,
) -> (r: Result<PipelinePayload, PlimErrorKind>)
    ensures
        encodable(json_string@) ==> (r matches Ok(p) && p@ == base64_payload(
            json_string@,
            ref_name@,
            json_data_base64_key@,
        )),
        !encodable(json_string@) ==> (r matches Err(PlimErrorKind::InternalServerError(_))),
{
    let bytes = json_string.as_bytes();
    if bytes.len() > usize::MAX / 2 {
        return Err(PlimErrorKind::internal_server_error("Payload too large to encode"));
    }
    let encoded = base64_encode(bytes);
    let mut variables: Vec<PipelineVariable> = Vec::new();
    variables.push(
        PipelineVariable {
            key: String::from_str(json_data_base64_key),
            value: AnyValue::String(encoded),
            is_file: true,
        },
    );
    let p = PipelinePayload::Create { ref_name: String::from_str(ref_name), variables };
    proof {
        assert(variables_view(variables@) =~= seq![
            (json_data_base64_key@, ValueModel::Text(base64_standard(utf8_of(json_string@))), true),
        ]);
    }
    Ok(p)
}

/// The body that passes each of `json_data`'s pairs that has a value as a
/// plain variable, in order, on `ref_name`.
pub fn make_native_payload_for_create_pipeline_api(
    json_data: &Vec<(String, Option<AnyValue>)>,
    ref_name: &str,
) -> (r: PipelinePayload)
    ensures
        r@ == native_payload(pairs_view(json_data@), ref_name@),
{
    let mut variables: Vec<PipelineVariable> = Vec::new();
    let mut i: usize = 0;
    while i < json_data.len()
        invariant
            i <= json_data.len(),
            variables_view(variables@) == native_variables(pairs_view(json_data@).take(i as int)),
        decreases json_data.len() - i,
    {
        proof {
            assert(pairs_view(json_data@).take(i + 1).drop_last() =~= pairs_view(json_data@).take(
                i as int,
            ));
            assert(pairs_view(json_data@).take(i + 1).last() == pairs_view(json_data@)[i as int]);
        }
        let ghost prev = variables@;
        match &json_data[i].1 {
            Some(v) => {
                variables.push(
                    PipelineVariable { key: json_data[i].0.clone(), value: v.copy(), is_file: false },
                );
                proof {
                    assert(variables_view(variables@) =~= variables_view(prev) + seq![
                        variables@.last()@,
                    ]);
                }
            },
            None => {
                proof {
                    assert(variables_view(variables@) =~= variables_view(prev) + Seq::<
                        VariableModel,
                    >::empty());
                }
            },
        }
        i = i + 1;
    }
    proof {
        assert(pairs_view(json_data@).take(json_data@.len() as int) =~= pairs_view(json_data@));
    }
    PipelinePayload::Create { ref_name: String::from_str(ref_name), variables }
}

/// The form fields of resolved pairs for the trigger endpoint: one
/// `variables[<key>]` field per pair that has a value, in order.
pub open spec fn trigger_variable_fields(s: Seq<PairModel>) -> Seq<(Seq<char>, ValueModel)>
    decreases s.len(),
{
    if s.len() == 0 {
        Seq::empty()
    } else {
        trigger_variable_fields(s.drop_last()) + match s.last().1 {
            Some(v) => seq![("variables["@ + s.last().0 + "]"@, v)],
            None => Seq::empty(),
        }
    }
}

/// The models of form fields.
pub open spec fn fields_view(s: Seq<(String, AnyValue)>) -> Seq<(Seq<char>, ValueModel)> {
    s.map_values(|f: (String, AnyValue)| (f.0@, f.1@))
}

/// The form for the trigger endpoint: each resolved pair with a value as a
/// `variables[<key>]` field, in order, then the trigger token and the ref.
pub fn make_native_payload_for_trigger_pipeline_api(
    json_data: &Vec<(String, Option<AnyValue>)>,
    token: &str,
    ref_name: &str,
) -> (r: Vec<(String, AnyValue)>)
    ensures
        fields_view(r@) == trigger_variable_fields(pairs_view(json_data@)) + seq![
            ("token"@, ValueModel::Text(token@)),
            ("ref"@, ValueModel::Text(ref_name@)),
        ],
{
    let mut fields: Vec<(String, AnyValue)> = Vec::new();
    let mut i: usize = 0;
    while i < json_data.len()
        invariant
            i <= json_data.len(),
            fields_view(fields@) == trigger_variable_fields(pairs_view(json_data@).take(i as int)),
        decreases json_data.len() - i,
    {
        proof {
            assert(pairs_view(json_data@).take(i + 1).drop_last() =~= pairs_view(json_data@).take(
                i as int,
            ));
            assert(pairs_view(json_data@).take(i + 1).last() == pairs_view(json_data@)[i as int]);
        }
        let ghost prev = fields@;
        match &json_data[i].1 {
            Some(v) => {
                let mut name = String::from_str("variables[");
                name.append(json_data[i].0.as_str());
                name.append("]");
                fields.push((name, v.copy()));
                proof {
                    assert(fields_view(fields@) =~= fields_view(prev) + seq![
                        ("variables["@ + json_data@[i as int].0@ + "]"@, v@),
                    ]);
                }
            },
            None => {
                proof {
                    assert(fields_view(fields@) =~= fields_view(prev) + Seq::<
                        (Seq<char>, ValueModel),
                    >::empty());
                }
            },
        }
        i = i + 1;
    }
    proof {
        assert(pairs_view(json_data@).take(json_data@.len() as int) =~= pairs_view(json_data@));
    }
    let ghost before = fields@;
    fields.push((String::from_str("token"), AnyValue::String(String::from_str(token))));
    fields.push((String::from_str("ref"), AnyValue::String(String::from_str(ref_name))));
    proof {
        assert(fields_view(fields@) =~= fields_view(before) + seq![
            ("token"@, ValueModel::Text(token@)),
            ("ref"@, ValueModel::Text(ref_name@)),
        ]);
    }
    fields
}

/// The form for the trigger endpoint that passes `json_text`
/// base64-encoded: the trigger token, the ref, then the encoded text under
/// `json_data_base64_key`; an internal error when the text is too long to
/// encode in memory.
pub fn make_base64_payload_for_trigger_pipeline_api(
    json_text: &str,
    token: &str,
    ref_name: &str,
    json_data_base64_key: &str,
) -> (r: Result<Vec<(String, String)>, PlimErrorKind>)
    ensures
        encodable(json_text@) ==> (r matches Ok(f) && f@.len() == 3 && f@[0].0@ == "token"@
            && f@[0].1@ == token@ && f@[1].0@ == "ref"@ && f@[1].1@ == ref_name@ && f@[2].0@
            == json_data_base64_key@ && f@[2].1@ == base64_standard(utf8_of(json_text@))),
        !encodable(json_text@) ==> (r matches Err(PlimErrorKind::InternalServerError(_))),
{
    let bytes = json_text.as_bytes();
    if bytes.len() > usize::MAX / 2 {
        return Err(PlimErrorKind::internal_server_error("Payload too large to encode"));
    }
    let encoded = base64_encode(bytes);
    let mut fields: Vec<(String, String)> = Vec::new();
    fields.push((String::from_str("token"), String::from_str(token)));
    fields.push((String::from_str("ref"), String::from_str(ref_name)));
    fields.push((String::from_str(json_data_base64_key), encoded));
    Ok(fields)
}

} // verus!
