//! How models are held in RedisAI: their metadata, the arguments that store
//! one, and how the metadata that RedisAI reports back is read.
use vstd::prelude::*;
use vstd::string::*;
use crate::shared::{
    backend_name, backend_named, device_name, device_named, same_text, Backend, Device,
};

verus! {

/// The metadata RedisAI keeps beside a model.
#[derive(Debug)]
pub struct ModelMeta {
    pub backend: Backend,
    pub device: Device,
    pub tag: Option<String>,
}

/// A `ModelMeta` as plain values.
pub struct ModelMetaView {
    pub backend: Backend,
    pub device: Device,
    pub tag: Option<Seq<char>>,
}

impl View for ModelMeta {
    type V = ModelMetaView;

    open spec fn view(&self) -> ModelMetaView {
        ModelMetaView {
            backend: self.backend,
            device: self.device,
            tag: crate::error::opt_string_view(self.tag),
        }
    }
}

/// The metadata given to a model that is stored without any: the ONNX
/// backend, on the CPU, with no tag, which is how the model list reports
/// every stored model.
pub open spec fn default_meta() -> ModelMetaView {
    ModelMetaView { backend: Backend::ONNX, device: Device::CPU, tag: None }
}

impl Default for ModelMeta {
    fn default() -> (m: ModelMeta)
        ensures
            m@ == default_meta(),
    {
        ModelMeta { backend: Backend::ONNX, device: Device::CPU, tag: None }
    }
}

/// A model: its metadata and its serialized bytes.
#[derive(Debug)]
pub struct AIModel {
    pub meta: ModelMeta,
    pub blob: Vec<u8>,
}

/// The arguments that follow `AI.MODELSET` for a model stored under `key`
/// with `meta`, up to the `BLOB` keyword: the key, the backend, the device,
/// then `TAG` and the tag where there is one.
pub open spec fn modelset_args(key: Seq<char>, meta: ModelMetaView) -> Seq<Seq<char>> {
    let head = seq![key, backend_name(meta.backend), device_name(meta.device)];
    match meta.tag {
        Some(t) => head + seq!["TAG"@, t],
        None => head,
    }
}

/// The arguments that store a model begin with its key, exactly as given,
/// followed by the names of its backend and device, then its tag, if any,
/// behind `TAG`; nothing else.
pub proof fn modelset_args_begin_with_the_key(key: Seq<char>, meta: ModelMetaView)
    ensures
        modelset_args(key, meta).len() == if meta.tag is Some { 5int } else { 3int },
        modelset_args(key, meta)[0] == key,
        modelset_args(key, meta)[1] == backend_name(meta.backend),
        modelset_args(key, meta)[2] == device_name(meta.device),
        meta.tag matches Some(t) ==> modelset_args(key, meta)[3] == "TAG"@
            && modelset_args(key, meta)[4] == t,
{
}

pub open spec fn texts(v: Seq<String>) -> Seq<Seq<char>> {
    v.map_values(|s: String| s@)
}

impl ModelMeta {
    /// The arguments of `AI.MODELSET` that store a model under `key` with
    /// this metadata, up to the `BLOB` keyword.
    pub fn modelset_args(&self, key: &str) -> (args: Vec<String>)
        ensures
            texts(args@) == modelset_args(key@, self@),
            args@.len() == if self.tag is Some { 5int } else { 3int },
            args@[0]@ == key@,
            args@[1]@ == backend_name(self.backend),
            args@[2]@ == device_name(self.device),
            self.tag matches Some(t) ==> args@[3]@ == "TAG"@ && args@[4]@ == t@,
    {
        let mut args: Vec<String> = Vec::new();
        args.push(String::from_str(key));
        args.push(self.backend.name());
        args.push(self.device.name());
        match &self.tag {
            Some(t) => {
                args.push(String::from_str("TAG"));
                args.push(t.clone());
            },
            None => {},
        }
        assert(texts(args@) =~= modelset_args(key@, self@));
        proof {
            modelset_args_begin_with_the_key(key@, self@);
        }
        args
    }

    /// The metadata that a reply of `AI.MODELGET <key> META` reports, given
    /// as its items in order (names and values alternating), or `None` where
    /// the reply names no known backend or device.
    pub fn from_meta_reply(reply: &Vec<String>) -> (m: Option<ModelMeta>)
        ensures
            match m {
                Some(meta) => meta_from_reply(texts(reply@)) == Some(meta@),
                None => meta_from_reply(texts(reply@)) is None,
            },
    {
        let backend = match meta_value_of(reply, "backend") {
            Some(name) => Backend::from_name(name.as_str()),
            None => None,
        };
        let device = match meta_value_of(reply, "device") {
            Some(name) => Device::from_name(name.as_str()),
            None => None,
        };
        let tag = meta_value_of(reply, "tag");
        match (backend, device) {
            (Some(backend), Some(device)) => Some(ModelMeta { backend, device, tag }),
            _ => None,
        }
    }
}

/// The value that follows the first name `key` among the names of a reply
/// whose items alternate between names and values, looking from item `from`.
pub open spec fn meta_value(reply: Seq<Seq<char>>, key: Seq<char>, from: int) -> Option<Seq<char>>
    decreases reply.len() - from,
{
    if from < 0 || from + 1 >= reply.len() {
        None
    } else if reply[from] == key {
        Some(reply[from + 1])
    } else {
        meta_value(reply, key, from + 2)
    }
}

/// The metadata that a reply reports.
pub open spec fn meta_from_reply(reply: Seq<Seq<char>>) -> Option<ModelMetaView> {
    let backend = match meta_value(reply, "backend"@, 0) {
        Some(name) => backend_named(name),
        None => None,
    };
    let device = match meta_value(reply, "device"@, 0) {
        Some(name) => device_named(name),
        None => None,
    };
    match (backend, device) {
        (Some(b), Some(d)) => Some(ModelMetaView { backend: b, device: d, tag: meta_value(reply, "tag"@, 0) }),
        _ => None,
    }
}

/// A reply that names the backend, the device and the tag, in that order,
/// reports exactly that metadata, for every backend, device and tag.
pub proof fn reply_reports_what_it_names(b: Backend, d: Device, t: Seq<char>)
    ensures
        meta_from_reply(seq!["backend"@, backend_name(b), "device"@, device_name(d), "tag"@, t])
            == Some(ModelMetaView { backend: b, device: d, tag: Some(t) }),
{
    let r = seq!["backend"@, backend_name(b), "device"@, device_name(d), "tag"@, t];
    reveal_with_fuel(meta_value, 4);
    reveal_strlit("backend");
    reveal_strlit("device");
    reveal_strlit("tag");
    assert("backend"@.len() == 7 && "device"@.len() == 6 && "tag"@.len() == 3);
    assert(meta_value(r, "backend"@, 0) == Some(backend_name(b)));
    assert(meta_value(r, "device"@, 0) == Some(device_name(d)));
    assert(meta_value(r, "tag"@, 0) == Some(t));
    crate::shared::backend_name_round_trip(b);
    crate::shared::device_name_round_trip(d);
}

/// A reply that names no backend reports no metadata.
pub proof fn reply_without_backend_reports_nothing(reply: Seq<Seq<char>>)
    requires
        meta_value(reply, "backend"@, 0) is None,
    ensures
        meta_from_reply(reply) is None,
{
}

/// The value that follows the name `key` in a reply.
fn meta_value_of(reply: &Vec<String>, key: &str) -> (v: Option<String>)
    ensures
        crate::error::opt_string_view(v) == meta_value(texts(reply@), key@, 0),
{
    let ghost r = texts(reply@);
    let mut i: usize = 0;
    while i < reply.len() && reply.len() - i >= 2
        invariant
            r == texts(reply@),
            0 <= i,
            i <= reply.len(),
            meta_value(r, key@, 0) == meta_value(r, key@, i as int),
        decreases reply.len() - i,
    {
        if same_text(reply[i].as_str(), key) {
            return Some(reply[i + 1].clone());
        }
        i = i + 2;
    }
    None
}

} // verus!
