//! The administration routes: listing, describing and uploading models.
use vstd::prelude::*;
use vstd::string::*;
use crate::error::{empty_model_message, ApiError, ApiErrorKind};
use crate::shared::{data_type_named, data_type_names, parse_data_type, ApiAIModel, ApiAIModelView, Backend, Device, ModelsApiResponse};
use crate::store::{texts, ModelMeta};

verus! {

/// The data type in which every listed model is reported.
fn float_data_type() -> (d: redisai::AIDataType)
    ensures
        d == data_type_named("FLOAT"@),
{
    proof {
        reveal_strlit("FLOAT");
        assert(data_type_names()[0] == "FLOAT"@);
    }
    match parse_data_type("FLOAT") {
        Ok(d) => d,
        Err(_) => vstd::pervasive::unreached(),
    }
}

/// `m` describes the model that a scan of RedisAI reported as `entry`
/// (its key, then its tag): the name and tag are taken from the entry, and
/// the model is reported as an ONNX model of FLOAT data on the CPU.
pub open spec fn describes_scanned(entry: Seq<Seq<char>>, m: ApiAIModelView) -> bool {
    &&& m.model_name == entry[0]
    &&& m.tag == entry[1]
    &&& m.backend == Backend::ONNX
    &&& m.dtype == data_type_named("FLOAT"@)
    &&& m.device == Device::CPU
}

/// A model listed from a scan entry is named exactly by the entry's key and
/// tagged exactly by its tag, and reported as an ONNX model of FLOAT data on
/// the CPU.
pub proof fn scanned_model_copies_entry(entry: Seq<Seq<char>>, m: ApiAIModelView)
    requires
        describes_scanned(entry, m),
    ensures
        m.model_name == entry[0],
        m.tag == entry[1],
        m.backend == Backend::ONNX,
        m.dtype == data_type_named("FLOAT"@),
        m.device == Device::CPU,
{
}

/// Every entry of a scan holds at least a key and a tag.
pub open spec fn scan_well_formed(scan: Seq<Vec<String>>) -> bool {
    forall|i: int| 0 <= i < scan.len() ==> #[trigger] scan[i].len() >= 2
}

/// The answer to a request for the list of models, given what a scan of
/// RedisAI returned (one entry per model: its key, then its tag). An empty
/// scan is answered with an `EmptyModelError`; otherwise each entry, in
/// order, becomes one model of the list.
pub fn list_models(models_redis: &Vec<Vec<String>>) -> (r: Result<ModelsApiResponse, ApiError>)
    requires
        scan_well_formed(models_redis@),
    ensures
        r is Err <==> models_redis.len() == 0,
        r matches Err(e) ==> {
            &&& e@.kind == ApiErrorKind::EmptyModelError
            &&& e@.body.message == empty_model_message()
            &&& e@.body.description is None
        },
        r matches Ok(resp) ==> {
            &&& resp@.len() == models_redis.len()
            &&& forall|i: int|
                0 <= i < models_redis.len() ==> describes_scanned(
                    texts(#[trigger] models_redis@[i]@),
                    resp@[i],
                )
        },
        r matches Ok(resp) ==> forall|i: int|
            0 <= i < models_redis.len() ==> {
                &&& (#[trigger] resp.data@[i]).model_name@ == models_redis@[i]@[0]@
                &&& resp.data@[i].tag@ == models_redis@[i]@[1]@
                &&& resp.data@[i].backend == Backend::ONNX
                &&& resp.data@[i].dtype == data_type_named("FLOAT"@)
                &&& resp.data@[i].device == Device::CPU
            },
{
    if models_redis.len() == 0 {
        return Err(ApiError::empty_model_error());
    }
    let mut models: Vec<ApiAIModel> = Vec::new();
    let mut i: usize = 0;
    while i < models_redis.len()
        invariant
            scan_well_formed(models_redis@),
            i <= models_redis.len(),
            models.len() == i,
            forall|j: int|
                0 <= j < i ==> describes_scanned(
                    texts(#[trigger] models_redis@[j]@),
                    models@[j]@,
                ),
        decreases models_redis.len() - i,
    {
        let model = &models_redis[i];
        assert(model.len() >= 2);
        let one = ApiAIModel {
            model_name: model[0].clone(),
            tag: model[1].clone(),
            backend: Backend::ONNX,
            dtype: float_data_type(),
            device: Device::CPU,
        };
        models.push(one);
        i = i + 1;
    }
    let response = ModelsApiResponse { data: models };
    assert forall|j: int| 0 <= j < models_redis.len() implies describes_scanned(
        texts(#[trigger] models_redis@[j]@),
        response@[j],
    ) by {
        assert(response@[j] == response.data@[j]@);
    }
    assert forall|j: int| 0 <= j < models_redis.len() implies {
        &&& (#[trigger] response.data@[j]).model_name@ == models_redis@[j]@[0]@
        &&& response.data@[j].tag@ == models_redis@[j]@[1]@
    } by {
        assert(describes_scanned(texts(models_redis@[j]@), response.data@[j]@));
        assert(models_redis@[j].len() >= 2);
        assert(texts(models_redis@[j]@)[0] == models_redis@[j]@[0]@);
        assert(texts(models_redis@[j]@)[1] == models_redis@[j]@[1]@);
        scanned_model_copies_entry(texts(models_redis@[j]@), response.data@[j]@);
    }
    Ok(response)
}

/// The description of the model stored under `key` with metadata `meta`:
/// its name is the key, and its tag, backend and device are those of the
/// metadata. A model without a tag has no description.
pub fn get_model(key: String, meta: &ModelMeta) -> (m: ApiAIModel)
    requires
        meta.tag is Some,
    ensures
        m@.model_name == key@,
        Some(m@.tag) == meta@.tag,
        m@.backend == meta.backend,
        m@.dtype == data_type_named("FLOAT"@),
        m@.device == meta.device,
{
    let tag = match &meta.tag {
        Some(t) => t.clone(),
        None => vstd::pervasive::unreached(),
    };
    ApiAIModel {
        model_name: key,
        tag,
        backend: meta.backend,
        dtype: float_data_type(),
        device: meta.device,
    }
}

/// The text fields of the form that uploads a model.
pub open spec fn model_form_fields_spec() -> Seq<Seq<char>> {
    seq!["model-name"@, "tag"@, "backend"@, "dtype"@, "device"@]
}

/// The names of the text fields of the form that uploads a model, in order.
pub fn model_form_fields() -> (fields: Vec<String>)
    ensures
        texts(fields@) == model_form_fields_spec(),
{
    let mut fields: Vec<String> = Vec::new();
    fields.push(String::from_str("model-name"));
    fields.push(String::from_str("tag"));
    fields.push(String::from_str("backend"));
    fields.push(String::from_str("dtype"));
    fields.push(String::from_str("device"));
    assert(texts(fields@) =~= model_form_fields_spec());
    fields
}

/// The answer to an upload of the model form, whatever it held.
pub fn upload_model() -> (reply: String)
    ensures
        reply@ == "ok"@,
{
    String::from_str("ok")
}

} // verus!
