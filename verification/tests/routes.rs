use speechdis::admin::UPLOAD_LIMIT;
use speechdis::error::ApiErrorKind;
use speechdis::routes::{admin, predict};
use speechdis::shared::{Backend, Device};
use speechdis::store::ModelMeta;

fn scan(entries: &[(&str, &str)]) -> Vec<Vec<String>> {
    entries.iter().map(|(k, t)| vec![k.to_string(), t.to_string()]).collect()
}

#[test]
fn empty_scan_is_an_empty_model_error() {
    let e = admin::list_models(&Vec::new()).unwrap_err();
    assert_eq!(e.kind(), ApiErrorKind::EmptyModelError);
    assert_eq!(e.body().message, "The model list in redis is empty");
    assert_eq!(e.status(), 500);
}

#[test]
fn scan_entries_become_models_in_order() {
    let r = admin::list_models(&scan(&[("models:a", "v1"), ("models:b", "")])).unwrap();
    assert_eq!(r.data.len(), 2);
    assert_eq!(r.data[0].model_name, "models:a");
    assert_eq!(r.data[0].tag, "v1");
    assert_eq!(r.data[1].model_name, "models:b");
    assert_eq!(r.data[1].tag, "");
    for m in &r.data {
        assert_eq!(m.backend, Backend::ONNX);
        assert_eq!(m.device, Device::CPU);
        assert_eq!(m.dtype, redisai::AIDataType::FLOAT);
    }
}

#[test]
fn predict_lists_as_admin_does() {
    let s = scan(&[("x", "t")]);
    let a = admin::list_models(&s).unwrap();
    let p = predict::list_models(&s).unwrap();
    assert_eq!(a.data[0].model_name, p.data[0].model_name);
    assert_eq!(a.data[0].tag, p.data[0].tag);
    assert!(predict::list_models(&Vec::new()).is_err());
}

#[test]
fn get_model_describes_the_stored_model() {
    let meta = ModelMeta { backend: Backend::TORCH, device: Device::GPU, tag: Some(String::from("v3")) };
    let m = admin::get_model(String::from("models:wav2vec:v1"), &meta);
    assert_eq!(m.model_name, "models:wav2vec:v1");
    assert_eq!(m.tag, "v3");
    assert_eq!(m.backend, Backend::TORCH);
    assert_eq!(m.device, Device::GPU);
    assert_eq!(m.dtype, redisai::AIDataType::FLOAT);
    let p = predict::get_model(String::from("k"), &meta);
    assert_eq!(p.model_name, "k");
    assert_eq!(p.tag, "v3");
}

#[test]
fn upload_form_fields_and_answer() {
    assert_eq!(admin::model_form_fields(), vec!["model-name", "tag", "backend", "dtype", "device"]);
    assert_eq!(admin::upload_model(), "ok");
}

#[test]
fn wav2vec_upload_is_stored_under_its_key() {
    let (upload, reply) = speechdis::admin::upload_model(vec![1, 2, 3]);
    assert_eq!(upload.key, "models:wav2vec:v1");
    assert_eq!(reply.model_name, "models:wav2vec:v1");
    assert_eq!(upload.model.blob, vec![1, 2, 3]);
    assert_eq!(upload.model.meta.backend, Backend::ONNX);
    assert_eq!(upload.model.meta.device, Device::CPU);
    assert!(upload.model.meta.tag.is_none());
}

#[test]
fn upload_limit_is_two_mebibytes() {
    assert_eq!(UPLOAD_LIMIT, 2 * 1024 * 1024);
}
