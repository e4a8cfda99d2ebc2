use speechdis::shared::{data_type_from_name, same_text, Backend, Device};
use speechdis::store::ModelMeta;

#[test]
fn backend_names_read_back() {
    for b in [Backend::TF, Backend::TFLITE, Backend::TORCH, Backend::ONNX] {
        assert_eq!(Backend::from_name(b.name().as_str()), Some(b));
    }
    assert_eq!(Backend::ONNX.name(), "ONNX");
    assert_eq!(Backend::from_name("onnx"), None);
    assert_eq!(Backend::from_name(""), None);
}

#[test]
fn device_names_read_back() {
    for d in [Device::CPU, Device::GPU] {
        assert_eq!(Device::from_name(d.name().as_str()), Some(d));
    }
    assert_eq!(Device::GPU.name(), "GPU");
    assert_eq!(Device::from_name("TPU"), None);
}

#[test]
fn data_types_parse_by_exact_name() {
    assert_eq!(data_type_from_name("FLOAT").unwrap(), redisai::AIDataType::FLOAT);
    assert_eq!(data_type_from_name("INT64").unwrap(), redisai::AIDataType::INT64);
    assert!(data_type_from_name("float").is_none());
    assert!(data_type_from_name("UINT8").is_none());
}

#[test]
fn texts_compare_exactly() {
    assert!(same_text("PONG", "PONG"));
    assert!(!same_text("PONG", "pong"));
}

#[test]
fn modelset_args_without_tag() {
    let meta = ModelMeta::default();
    assert_eq!(meta.backend, Backend::ONNX);
    assert_eq!(meta.device, Device::CPU);
    assert!(meta.tag.is_none());
    assert_eq!(meta.modelset_args("m:1"), vec!["m:1", "ONNX", "CPU"]);
}

#[test]
fn modelset_args_with_tag() {
    let meta = ModelMeta { backend: Backend::TORCH, device: Device::GPU, tag: Some(String::from("v2")) };
    assert_eq!(meta.modelset_args("k"), vec!["k", "TORCH", "GPU", "TAG", "v2"]);
}

fn reply(items: &[&str]) -> Vec<String> {
    items.iter().map(|s| s.to_string()).collect()
}

#[test]
fn meta_reply_is_read() {
    let r = reply(&["backend", "TORCH", "device", "CPU", "tag", "v1", "batchsize", "0"]);
    let meta = ModelMeta::from_meta_reply(&r).unwrap();
    assert_eq!(meta.backend, Backend::TORCH);
    assert_eq!(meta.device, Device::CPU);
    assert_eq!(meta.tag.as_deref(), Some("v1"));
}

#[test]
fn meta_reply_without_tag_has_none() {
    let r = reply(&["device", "GPU", "backend", "TF"]);
    let meta = ModelMeta::from_meta_reply(&r).unwrap();
    assert_eq!(meta.backend, Backend::TF);
    assert_eq!(meta.device, Device::GPU);
    assert!(meta.tag.is_none());
}

#[test]
fn meta_reply_with_unknown_backend_is_refused() {
    assert!(ModelMeta::from_meta_reply(&reply(&["backend", "CAFFE", "device", "CPU"])).is_none());
    assert!(ModelMeta::from_meta_reply(&reply(&["backend", "TF"])).is_none());
    assert!(ModelMeta::from_meta_reply(&reply(&[])).is_none());
}

#[test]
fn meta_reply_reads_names_only_at_name_positions() {
    // "backend" appears as a value first; only the name at an even position counts.
    let r = reply(&["tag", "backend", "backend", "ONNX", "device", "CPU"]);
    let meta = ModelMeta::from_meta_reply(&r).unwrap();
    assert_eq!(meta.backend, Backend::ONNX);
    assert_eq!(meta.tag.as_deref(), Some("backend"));
}
