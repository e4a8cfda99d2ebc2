//! Uploading the speech-to-text model.
use vstd::prelude::*;
use vstd::string::*;
use crate::store::{default_meta, AIModel, ModelMeta};

verus! {

/// The key under which the speech-to-text model is stored.
pub open spec fn wav2vec_key() -> Seq<char> {
    "models:wav2vec:v1"@
}

/// The most bytes of an uploaded model that are read: 2 MiB. Bytes past
/// the limit are not read.
pub const UPLOAD_LIMIT: u64 = 2097152;

/// The API's answer to an upload: the key the model was stored under.
#[derive(Debug)]
pub struct RedisAIModel {
    pub model_name: String,
}

/// What an upload stores: the key, and the model to store under it.
#[derive(Debug)]
pub struct ModelUpload {
    pub key: String,
    pub model: AIModel,
}

/// What the upload of the bytes `blob` of the speech-to-text model stores,
/// and the answer to it: the model is stored under its key, with the
/// default metadata and exactly these bytes, and the answer names the key.
pub fn upload_model(blob: Vec<u8>) -> (r: (ModelUpload, RedisAIModel))
    ensures
        r.0.key@ == wav2vec_key(),
        r.0.model.meta@ == default_meta(),
        r.0.model.blob@ == blob@,
        r.1.model_name@ == wav2vec_key(),
{
    let key = String::from_str("models:wav2vec:v1");
    let meta = ModelMeta::default();
    let upload = ModelUpload { key: key.clone(), model: AIModel { meta, blob } };
    (upload, RedisAIModel { model_name: key })
}

} // verus!
