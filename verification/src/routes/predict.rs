//! The prediction routes, which list and describe the models that
//! predictions can be asked of, as the administration routes do.
use vstd::prelude::*;
use crate::error::{empty_model_message, ApiError, ApiErrorKind};
use crate::routes::admin::{describes_scanned, scan_well_formed};
use crate::shared::{data_type_named, ApiAIModel, Backend, Device, ModelsApiResponse};
use crate::store::{texts, ModelMeta};

verus! {

/// The answer to a request for the models that can predict, given what a
/// scan of RedisAI returned; the same answer as the administration list.
pub fn list_models(models_redis: &Vec<Vec<String>>) -> (r: Result<ModelsApiResponse, ApiError>)
    requires
        scan_well_formed(models_redis@),
    ensures
        r is Err <==> models_redis.len() == 0,
        r matches Err(e) ==> {
            &&& e@.kind == ApiErrorKind::EmptyModelError
            &&& e@.body.message == empty_model_message()
            &&& e@.body.description is None
        },
        r matches Ok(resp) ==> {
            &&& resp@.len() == models_redis.len()
            &&& forall|i: int|
                0 <= i < models_redis.len() ==> describes_scanned(
                    texts(#[trigger] models_redis@[i]@),
                    resp@[i],
                )
        },
        r matches Ok(resp) ==> forall|i: int|
            0 <= i < models_redis.len() ==> {
                &&& (#[trigger] resp.data@[i]).model_name@ == models_redis@[i]@[0]@
                &&& resp.data@[i].tag@ == models_redis@[i]@[1]@
                &&& resp.data@[i].backend == Backend::ONNX
                &&& resp.data@[i].dtype == data_type_named("FLOAT"@)
                &&& resp.data@[i].device == Device::CPU
            },
{
    let r = crate::routes::admin::list_models(models_redis);
    proof {
        if r is Ok {
            let resp = r->Ok_0;
            assert forall|i: int| 0 <= i < models_redis.len() implies describes_scanned(
                texts(#[trigger] models_redis@[i]@),
                resp@[i],
            ) by {
                crate::routes::admin::scanned_model_copies_entry(texts(models_redis@[i]@), resp@[i]);
            }
        }
    }
    r
}

/// The description of a model that can predict, stored under `key` with
/// metadata `meta`; the same description as the administration route's.
pub fn get_model(key: String, meta: &ModelMeta) -> (m: ApiAIModel)
    requires
        meta.tag is Some,
    ensures
        m@.model_name == key@,
        Some(m@.tag) == meta@.tag,
        m@.backend == meta.backend,
        m@.dtype == data_type_named("FLOAT"@),
        m@.device == meta.device,
{
    crate::routes::admin::get_model(key, meta)
}

} // verus!
