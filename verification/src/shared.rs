//! The description of a model that the API hands out, and the RedisAI
//! vocabulary that it is written in.
use vstd::prelude::*;
use vstd::string::*;

verus! {

// ---------------------------------------------------------------------------
// Text helpers.
// ---------------------------------------------------------------------------

/// Whether two texts are the same.
pub fn same_text(a: &str, b: &str) -> (r: bool)
    ensures
        r == (a@ == b@),
{
    String::from_str(a) == String::from_str(b)
}

// ---------------------------------------------------------------------------
// RedisAI vocabulary.
// ---------------------------------------------------------------------------

/// The data types of RedisAI tensors, as the `redisai` crate names them.
#[verifier::external_type_specification]
#[verifier::external_body]
pub struct ExAIDataType(redisai::AIDataType);

/// The names that `redisai::AIDataType` parses: one per variant, written
/// as the variant is named.
pub open spec fn data_type_names() -> Seq<Seq<char>> {
    seq![
        "FLOAT"@,
        "DOUBLE"@,
        "INT8"@,
        "INT16"@,
        "INT32"@,
        "INT64"@,
        "UNIT8"@,
        "UNIT16"@,
    ]
}

/// The variant of `redisai::AIDataType` that is named `name`.
pub uninterp spec fn data_type_named(name: Seq<char>) -> redisai::AIDataType;

/// `<redisai::AIDataType as FromStr>::from_str`, which strum's `EnumString`
/// derive writes as an exact match of the variants' names. The contract
/// states on which texts the parse succeeds, and that what it gives
/// depends on the text alone; which variant that is stays unsaid, since the
/// type is opaque here.
#[verifier::external_body]
pub(crate) fn parse_data_type(name: &str) -> (r: Result<redisai::AIDataType, strum::ParseError>)
    ensures
        r is Ok <==> data_type_names().contains(name@),
        r matches Ok(d) ==> d == data_type_named(name@),
{
    <redisai::AIDataType as std::str::FromStr>::from_str(name)
}

/// The data type that RedisAI names `name`; `None` for any text that is
/// not the exact name of a data type.
pub fn data_type_from_name(name: &str) -> (d: Option<redisai::AIDataType>)
    ensures
        d is Some <==> data_type_names().contains(name@),
        d matches Some(t) ==> t == data_type_named(name@),
{
    match parse_data_type(name) {
        Ok(t) => Some(t),
        Err(_) => None,
    }
}

/// The RedisAI backends that run a model.
#[derive(PartialEq, Eq, Structural, Clone, Copy, Debug)]
pub enum Backend {
    TF,
    TFLITE,
    TORCH,
    ONNX,
}

/// The devices that RedisAI runs a model on.
#[derive(PartialEq, Eq, Structural, Clone, Copy, Debug)]
pub enum Device {
    CPU,
    GPU,
}

/// The name RedisAI gives a backend.
pub open spec fn backend_name(b: Backend) -> Seq<char> {
    match b {
        Backend::TF => "TF"@,
        Backend::TFLITE => "TFLITE"@,
        Backend::TORCH => "TORCH"@,
        Backend::ONNX => "ONNX"@,
    }
}

/// The backend that RedisAI names `name`, if any.
pub open spec fn backend_named(name: Seq<char>) -> Option<Backend> {
    if name == "TF"@ {
        Some(Backend::TF)
    } else if name == "TFLITE"@ {
        Some(Backend::TFLITE)
    } else if name == "TORCH"@ {
        Some(Backend::TORCH)
    } else if name == "ONNX"@ {
        Some(Backend::ONNX)
    } else {
        None
    }
}

/// The name RedisAI gives a device.
pub open spec fn device_name(d: Device) -> Seq<char> {
    match d {
        Device::CPU => "CPU"@,
        Device::GPU => "GPU"@,
    }
}

/// The device that RedisAI names `name`, if any.
pub open spec fn device_named(name: Seq<char>) -> Option<Device> {
    if name == "CPU"@ {
        Some(Device::CPU)
    } else if name == "GPU"@ {
        Some(Device::GPU)
    } else {
        None
    }
}

impl Backend {
    /// The name RedisAI gives this backend.
    pub fn name(&self) -> (s: String)
        ensures
            s@ == backend_name(*self),
            *self == Backend::TF ==> s@ == "TF"@,
            *self == Backend::TFLITE ==> s@ == "TFLITE"@,
            *self == Backend::TORCH ==> s@ == "TORCH"@,
            *self == Backend::ONNX ==> s@ == "ONNX"@,
    {
        proof {
            backends_are_named_as_redisai_names_them(backend_name(*self));
        }
        match self {
            Backend::TF => String::from_str("TF"),
            Backend::TFLITE => String::from_str("TFLITE"),
            Backend::TORCH => String::from_str("TORCH"),
            Backend::ONNX => String::from_str("ONNX"),
        }
    }

    /// The backend that RedisAI names `name`; `None` for any other text.
    pub fn from_name(name: &str) -> (b: Option<Backend>)
        ensures
            b == backend_named(name@),
            b == Some(Backend::TF) <==> name@ == "TF"@,
            b == Some(Backend::TFLITE) <==> name@ == "TFLITE"@,
            b == Some(Backend::TORCH) <==> name@ == "TORCH"@,
            b == Some(Backend::ONNX) <==> name@ == "ONNX"@,
    {
        proof {
            backends_are_named_as_redisai_names_them(name@);
        }
        if same_text(name, "TF") {
            Some(Backend::TF)
        } else if same_text(name, "TFLITE") {
            Some(Backend::TFLITE)
        } else if same_text(name, "TORCH") {
            Some(Backend::TORCH)
        } else if same_text(name, "ONNX") {
            Some(Backend::ONNX)
        } else {
            None
        }
    }
}

impl Device {
    /// The name RedisAI gives this device.
    pub fn name(&self) -> (s: String)
        ensures
            s@ == device_name(*self),
            *self == Device::CPU ==> s@ == "CPU"@,
            *self == Device::GPU ==> s@ == "GPU"@,
    {
        proof {
            devices_are_named_as_redisai_names_them(device_name(*self));
        }
        match self {
            Device::CPU => String::from_str("CPU"),
            Device::GPU => String::from_str("GPU"),
        }
    }

    /// The device that RedisAI names `name`; `None` for any other text.
    pub fn from_name(name: &str) -> (d: Option<Device>)
        ensures
            d == device_named(name@),
            d == Some(Device::CPU) <==> name@ == "CPU"@,
            d == Some(Device::GPU) <==> name@ == "GPU"@,
    {
        proof {
            devices_are_named_as_redisai_names_them(name@);
        }
        if same_text(name, "CPU") {
            Some(Device::CPU)
        } else if same_text(name, "GPU") {
            Some(Device::GPU)
        } else {
            None
        }
    }
}

/// Reading a backend's name gives the backend back.
pub proof fn backend_name_round_trip(b: Backend)
    ensures
        backend_named(backend_name(b)) == Some(b),
{
    reveal_strlit("TF");
    reveal_strlit("TFLITE");
    reveal_strlit("TORCH");
    reveal_strlit("ONNX");
    assert("TF"@.len() == 2 && "TFLITE"@.len() == 6 && "TORCH"@.len() == 5 && "ONNX"@.len() == 4);
}

/// Each backend is named by its RedisAI name, written as the variant is
/// named, and a text names a backend exactly when it is one of these names.
pub proof fn backends_are_named_as_redisai_names_them(name: Seq<char>)
    ensures
        backend_name(Backend::TF) == "TF"@,
        backend_name(Backend::TFLITE) == "TFLITE"@,
        backend_name(Backend::TORCH) == "TORCH"@,
        backend_name(Backend::ONNX) == "ONNX"@,
        backend_named(name) == Some(Backend::TF) <==> name == "TF"@,
        backend_named(name) == Some(Backend::TFLITE) <==> name == "TFLITE"@,
        backend_named(name) == Some(Backend::TORCH) <==> name == "TORCH"@,
        backend_named(name) == Some(Backend::ONNX) <==> name == "ONNX"@,
        backend_named(name) is None <==> !(name == "TF"@ || name == "TFLITE"@ || name == "TORCH"@
            || name == "ONNX"@),
{
    reveal_strlit("TF");
    reveal_strlit("TFLITE");
    reveal_strlit("TORCH");
    reveal_strlit("ONNX");
    assert("TF"@.len() == 2 && "TFLITE"@.len() == 6 && "TORCH"@.len() == 5 && "ONNX"@.len() == 4);
}

/// Each device is named by its RedisAI name, and a text names a device
/// exactly when it is one of these names.
pub proof fn devices_are_named_as_redisai_names_them(name: Seq<char>)
    ensures
        device_name(Device::CPU) == "CPU"@,
        device_name(Device::GPU) == "GPU"@,
        device_named(name) == Some(Device::CPU) <==> name == "CPU"@,
        device_named(name) == Some(Device::GPU) <==> name == "GPU"@,
        device_named(name) is None <==> !(name == "CPU"@ || name == "GPU"@),
{
    reveal_strlit("CPU");
    reveal_strlit("GPU");
    assert("CPU"@[0] != "GPU"@[0]);
}

/// Reading a device's name gives the device back.
pub proof fn device_name_round_trip(d: Device)
    ensures
        device_named(device_name(d)) == Some(d),
{
    reveal_strlit("CPU");
    reveal_strlit("GPU");
    assert("CPU"@[0] != "GPU"@[0]);
}

// ---------------------------------------------------------------------------
// Models as the API describes them.
// ---------------------------------------------------------------------------

/// A model stored in RedisAI, as the API describes it.
#[derive(Debug)]
pub struct ApiAIModel {
    pub model_name: String,
    pub tag: String,
    pub backend: Backend,
    pub dtype: redisai::AIDataType,
    pub device: Device,
}

/// An `ApiAIModel` as plain values.
pub struct ApiAIModelView {
    pub model_name: Seq<char>,
    pub tag: Seq<char>,
    pub backend: Backend,
    pub dtype: redisai::AIDataType,
    pub device: Device,
}

impl View for ApiAIModel {
    type V = ApiAIModelView;

    open spec fn view(&self) -> ApiAIModelView {
        ApiAIModelView {
            model_name: self.model_name@,
            tag: self.tag@,
            backend: self.backend,
            dtype: self.dtype,
            device: self.device,
        }
    }
}

/// The API's answer to a request for the list of models.
#[derive(Debug)]
pub struct ModelsApiResponse {
    pub data: Vec<ApiAIModel>,
}

impl View for ModelsApiResponse {
    type V = Seq<ApiAIModelView>;

    open spec fn view(&self) -> Seq<ApiAIModelView> {
        self.data@.map_values(|m: ApiAIModel| m@)
    }
}

} // verus!
