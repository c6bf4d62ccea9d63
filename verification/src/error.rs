//! The errors of the sensor, its camera, its configuration and its calibrators.
//!
//! Every error has a text, given by `text` and written by `to_string`.

use crate::text::decimal;
use crate::text::decimal_text;
use crate::text::signed_decimal;
use crate::text::signed_decimal_text;
use vstd::prelude::*;
use vstd::std_specs::convert::FromSpecImpl;
use vstd::string::*;

verus! {

/// Camera-specific error types.
#[derive(Debug)]
pub enum CameraError {
    /// No camera answers to the device ID.
    NotFound { device_id: u32 },
    /// The camera may not be opened.
    AccessDenied { device_id: u32 },
    /// The camera could not be set up.
    InitializationFailed { message: String },
    /// A frame could not be captured.
    CaptureFailed { message: String },
    /// No camera can be used.
    NoCamerasAvailable,
    /// No camera was found.
    NoCamerasFound,
    /// The camera configuration cannot be used.
    InvalidConfiguration { message: String },
}

/// Main error type for fear detection operations.
#[derive(Debug)]
pub enum FearError {
    /// The camera failed.
    Camera(CameraError),
    /// The inference runtime failed.
    OnnxRuntime { message: String },
    /// The model could not be loaded.
    ModelLoading { message: String },
    /// Face detection failed.
    FaceDetection { message: String },
    /// Calibration failed.
    Calibration { message: String },
    /// The configuration cannot be used.
    Configuration { message: String },
    /// Reading or writing failed.
    Io { message: String },
    /// The frame channel failed.
    Channel { message: String },
    /// The sensor was not initialized.
    NotInitialized,
    /// The sensor runs already.
    AlreadyRunning,
    /// The sensor does not run.
    NotRunning,
    /// The baseline was asked for before enough samples were collected.
    CalibrationIncomplete,
    /// The model file is missing.
    ModelNotFound { message: String },
    /// No face is in view.
    NoFaceDetected,
    /// The classifier output cannot be used.
    InvalidLogits { message: String },
}

/// Terrain generation error types.
#[derive(Debug)]
pub enum TerrainError {
    /// A chunk could not be generated.
    ChunkGeneration { message: String },
    /// Noise could not be generated.
    NoiseGeneration { message: String },
    /// A mesh could not be generated.
    MeshGeneration { message: String },
    /// No chunk lies at the coordinates.
    InvalidChunkCoordinates { x: i32, z: i32 },
}

/// Configuration error types.
#[derive(Debug)]
pub enum ConfigError {
    /// The configuration file could not be read or written.
    InvalidFile { message: String },
    /// A required field is empty.
    MissingField { field: String },
    /// A field holds a value that cannot be used.
    InvalidValue { field: String, message: String },
    /// The configuration could not be written as text.
    Serialization { message: String },
    /// The text is no configuration.
    Deserialization { message: String },
}

/// Calibration errors.
#[derive(Debug)]
pub enum CalibrationError {
    /// The calibrator is frozen and takes no samples.
    Frozen,
    /// Fewer samples were seen than a baseline needs.
    InsufficientSamples { min_samples: usize },
    /// A parameter lies outside its range.
    InvalidParameters { reason: String },
}

/// Face detection errors.
#[derive(Debug)]
pub enum YuNetError {
    /// The detector session could not be made.
    SessionCreation(String),
    /// The image could not be prepared.
    Preprocessing(String),
    /// The detector failed on the image.
    Inference(String),
    /// No face is in the frame.
    NoFacesDetected,
    /// The detector output has an unknown shape.
    InvalidOutput,
}

/// Sensor errors.
#[derive(Debug)]
pub enum SensorError {
    /// The camera could not be opened.
    CameraInit(String),
    /// The inference environment could not be made.
    OnnxEnvironment(String),
    /// The emotion model could not be loaded.
    ModelLoading(String),
    /// Face detection failed.
    FaceDetection(YuNetError),
    /// The calibrator refused a sample.
    Calibration(CalibrationError),
    /// A frame could not be processed.
    FrameProcessing(String),
    /// The frame channel failed.
    ChannelError,
    /// The sensor was not initialized.
    NotInitialized,
}

impl CameraError {
    /// The text of the error.
    pub open spec fn text(self) -> Seq<char> {
        match self {
            CameraError::NotFound { device_id } => "Camera not found: device_id="@
                + decimal(device_id as nat),
            CameraError::AccessDenied { device_id } => "Camera access denied: device_id="@
                + decimal(device_id as nat),
            CameraError::InitializationFailed { message } => "Camera initialization failed: "@
                + message@,
            CameraError::CaptureFailed { message } => "Camera capture failed: "@ + message@,
            CameraError::NoCamerasAvailable => "No cameras available"@,
            CameraError::NoCamerasFound => "No cameras found"@,
            CameraError::InvalidConfiguration { message } => "Invalid camera configuration: "@
                + message@,
        }
    }

    /// Writes the text of the error.
    pub fn to_string(&self) -> (r: String)
        ensures
            r@ == self.text(),
    {
        match self {
            CameraError::NotFound { device_id } => {
                let mut text = String::from_str("Camera not found: device_id=");
                let digits = decimal_text(*device_id as u64);
                text.append(digits.as_str());
                text
            },
            CameraError::AccessDenied { device_id } => {
                let mut text = String::from_str("Camera access denied: device_id=");
                let digits = decimal_text(*device_id as u64);
                text.append(digits.as_str());
                text
            },
            CameraError::InitializationFailed { message } => {
                let mut text = String::from_str("Camera initialization failed: ");
                text.append(message.as_str());
                text
            },
            CameraError::CaptureFailed { message } => {
                let mut text = String::from_str("Camera capture failed: ");
                text.append(message.as_str());
                text
            },
            CameraError::NoCamerasAvailable => {
                String::from_str("No cameras available")
            },
            CameraError::NoCamerasFound => {
                String::from_str("No cameras found")
            },
            CameraError::InvalidConfiguration { message } => {
                let mut text = String::from_str("Invalid camera configuration: ");
                text.append(message.as_str());
                text
            },
        }
    }

    /// Create a camera not found error.
    pub fn not_found(device_id: u32) -> (r: Self)
        ensures
            (r matches Self::NotFound { device_id: id } && id == device_id),
    {
        Self::NotFound { device_id }
    }

    /// Create a camera access denied error.
    pub fn access_denied(device_id: u32) -> (r: Self)
        ensures
            (r matches Self::AccessDenied { device_id: id } && id == device_id),
    {
        Self::AccessDenied { device_id }
    }

    /// Create a camera initialization failed error.
    pub fn initialization_failed(message: &str) -> (r: Self)
        ensures
            (r matches Self::InitializationFailed { message: text } && text@ == message@),
    {
        Self::InitializationFailed { message: String::from_str(message) }
    }

    /// Create a camera capture failed error.
    pub fn capture_failed(message: &str) -> (r: Self)
        ensures
            (r matches Self::CaptureFailed { message: text } && text@ == message@),
    {
        Self::CaptureFailed { message: String::from_str(message) }
    }

    /// Create an invalid configuration error.
    pub fn invalid_configuration(message: &str) -> (r: Self)
        ensures
            (r matches Self::InvalidConfiguration { message: text } && text@ == message@),
    {
        Self::InvalidConfiguration { message: String::from_str(message) }
    }
}

impl FearError {
    /// The text of the error.
    pub open spec fn text(self) -> Seq<char> {
        match self {
            FearError::Camera(inner) => "Camera error: "@ + inner.text(),
            FearError::OnnxRuntime { message } => "ONNX Runtime error: "@ + message@,
            FearError::ModelLoading { message } => "Model loading error: "@ + message@,
            FearError::FaceDetection { message } => "Face detection error: "@ + message@,
            FearError::Calibration { message } => "Calibration error: "@ + message@,
            FearError::Configuration { message } => "Configuration error: "@ + message@,
            FearError::Io { message } => "IO error: "@ + message@,
            FearError::Channel { message } => "Channel error: "@ + message@,
            FearError::NotInitialized => "Sensor not initialized"@,
            FearError::AlreadyRunning => "Sensor already running"@,
            FearError::NotRunning => "Sensor not running"@,
            FearError::CalibrationIncomplete => "Calibration incomplete"@,
            FearError::ModelNotFound { message } => "Model not found: "@ + message@,
            FearError::NoFaceDetected => "No face detected"@,
            FearError::InvalidLogits { message } => "Invalid logits: "@ + message@,
        }
    }

    /// Writes the text of the error.
    pub fn to_string(&self) -> (r: String)
        ensures
            r@ == self.text(),
    {
        match self {
            FearError::Camera(inner) => {
                let mut text = String::from_str("Camera error: ");
                let detail = inner.to_string();
                text.append(detail.as_str());
                text
            },
            FearError::OnnxRuntime { message } => {
                let mut text = String::from_str("ONNX Runtime error: ");
                text.append(message.as_str());
                text
            },
            FearError::ModelLoading { message } => {
                let mut text = String::from_str("Model loading error: ");
                text.append(message.as_str());
                text
            },
            FearError::FaceDetection { message } => {
                let mut text = String::from_str("Face detection error: ");
                text.append(message.as_str());
                text
            },
            FearError::Calibration { message } => {
                let mut text = String::from_str("Calibration error: ");
                text.append(message.as_str());
                text
            },
            FearError::Configuration { message } => {
                let mut text = String::from_str("Configuration error: ");
                text.append(message.as_str());
                text
            },
            FearError::Io { message } => {
                let mut text = String::from_str("IO error: ");
                text.append(message.as_str());
                text
            },
            FearError::Channel { message } => {
                let mut text = String::from_str("Channel error: ");
                text.append(message.as_str());
                text
            },
            FearError::NotInitialized => {
                String::from_str("Sensor not initialized")
            },
            FearError::AlreadyRunning => {
                String::from_str("Sensor already running")
            },
            FearError::NotRunning => {
                String::from_str("Sensor not running")
            },
            FearError::CalibrationIncomplete => {
                String::from_str("Calibration incomplete")
            },
            FearError::ModelNotFound { message } => {
                let mut text = String::from_str("Model not found: ");
                text.append(message.as_str());
                text
            },
            FearError::NoFaceDetected => {
                String::from_str("No face detected")
            },
            FearError::InvalidLogits { message } => {
                let mut text = String::from_str("Invalid logits: ");
                text.append(message.as_str());
                text
            },
        }
    }

    /// Create a new ONNX Runtime error.
    pub fn onnx_runtime(message: &str) -> (r: Self)
        ensures
            (r matches Self::OnnxRuntime { message: text } && text@ == message@),
    {
        Self::OnnxRuntime { message: String::from_str(message) }
    }

    /// Create a new model loading error.
    pub fn model_loading(message: &str) -> (r: Self)
        ensures
            (r matches Self::ModelLoading { message: text } && text@ == message@),
    {
        Self::ModelLoading { message: String::from_str(message) }
    }

    /// Create a new face detection error.
    pub fn face_detection(message: &str) -> (r: Self)
        ensures
            (r matches Self::FaceDetection { message: text } && text@ == message@),
    {
        Self::FaceDetection { message: String::from_str(message) }
    }

    /// Create a new calibration error.
    pub fn calibration(message: &str) -> (r: Self)
        ensures
            (r matches Self::Calibration { message: text } && text@ == message@),
    {
        Self::Calibration { message: String::from_str(message) }
    }

    /// Create a new configuration error.
    pub fn configuration(message: &str) -> (r: Self)
        ensures
            (r matches Self::Configuration { message: text } && text@ == message@),
    {
        Self::Configuration { message: String::from_str(message) }
    }

    /// Create a new channel error.
    pub fn channel(message: &str) -> (r: Self)
        ensures
            (r matches Self::Channel { message: text } && text@ == message@),
    {
        Self::Channel { message: String::from_str(message) }
    }

    /// Create a new model not found error.
    pub fn model_not_found(message: &str) -> (r: Self)
        ensures
            (r matches Self::ModelNotFound { message: text } && text@ == message@),
    {
        Self::ModelNotFound { message: String::from_str(message) }
    }

    /// Create a new invalid logits error.
    pub fn invalid_logits(message: &str) -> (r: Self)
        ensures
            (r matches Self::InvalidLogits { message: text } && text@ == message@),
    {
        Self::InvalidLogits { message: String::from_str(message) }
    }
}

impl TerrainError {
    /// The text of the error.
    pub open spec fn text(self) -> Seq<char> {
        match self {
            TerrainError::ChunkGeneration { message } => "Chunk generation failed: "@ + message@,
            TerrainError::NoiseGeneration { message } => "Noise generation failed: "@ + message@,
            TerrainError::MeshGeneration { message } => "Mesh generation failed: "@ + message@,
            TerrainError::InvalidChunkCoordinates { x, z } => "Invalid chunk coordinates: x="@
                + signed_decimal(x as int) + ", z="@ + signed_decimal(z as int),
        }
    }

    /// Writes the text of the error.
    pub fn to_string(&self) -> (r: String)
        ensures
            r@ == self.text(),
    {
        match self {
            TerrainError::ChunkGeneration { message } => {
                let mut text = String::from_str("Chunk generation failed: ");
                text.append(message.as_str());
                text
            },
            TerrainError::NoiseGeneration { message } => {
                let mut text = String::from_str("Noise generation failed: ");
                text.append(message.as_str());
                text
            },
            TerrainError::MeshGeneration { message } => {
                let mut text = String::from_str("Mesh generation failed: ");
                text.append(message.as_str());
                text
            },
            TerrainError::InvalidChunkCoordinates { x, z } => {
                let mut text = String::from_str("Invalid chunk coordinates: x=");
                let digits_x = signed_decimal_text(*x);
                text.append(digits_x.as_str());
                text.append(", z=");
                let digits_z = signed_decimal_text(*z);
                text.append(digits_z.as_str());
                text
            },
        }
    }
}

impl ConfigError {
    /// The text of the error.
    pub open spec fn text(self) -> Seq<char> {
        match self {
            ConfigError::InvalidFile { message } => "Invalid configuration file: "@ + message@,
            ConfigError::MissingField { field } => "Missing required field: "@ + field@,
            ConfigError::InvalidValue { field, message } => "Invalid value for field '"@ + field@
                + "': "@ + message@,
            ConfigError::Serialization { message } => "Serialization error: "@ + message@,
            ConfigError::Deserialization { message } => "Deserialization error: "@ + message@,
        }
    }

    /// Writes the text of the error.
    pub fn to_string(&self) -> (r: String)
        ensures
            r@ == self.text(),
    {
        match self {
            ConfigError::InvalidFile { message } => {
                let mut text = String::from_str("Invalid configuration file: ");
                text.append(message.as_str());
                text
            },
            ConfigError::MissingField { field } => {
                let mut text = String::from_str("Missing required field: ");
                text.append(field.as_str());
                text
            },
            ConfigError::InvalidValue { field, message } => {
                let mut text = String::from_str("Invalid value for field '");
                text.append(field.as_str());
                text.append("': ");
                text.append(message.as_str());
                text
            },
            ConfigError::Serialization { message } => {
                let mut text = String::from_str("Serialization error: ");
                text.append(message.as_str());
                text
            },
            ConfigError::Deserialization { message } => {
                let mut text = String::from_str("Deserialization error: ");
                text.append(message.as_str());
                text
            },
        }
    }
}

impl CalibrationError {
    /// The text of the error.
    pub open spec fn text(self) -> Seq<char> {
        match self {
            CalibrationError::Frozen => "Calibration is frozen and cannot be updated"@,
            CalibrationError::InsufficientSamples { min_samples } =>
                "Insufficient samples for calibration: need at least "@
                + decimal(min_samples as nat),
            CalibrationError::InvalidParameters { reason } => "Invalid calibration parameters: "@
                + reason@,
        }
    }

    /// Writes the text of the error.
    pub fn to_string(&self) -> (r: String)
        ensures
            r@ == self.text(),
    {
        match self {
            CalibrationError::Frozen => {
                String::from_str("Calibration is frozen and cannot be updated")
            },
            CalibrationError::InsufficientSamples { min_samples } => {
                let mut text = String::from_str("Insufficient samples for calibration: need at least ");
                let digits = decimal_text(*min_samples as u64);
                text.append(digits.as_str());
                text
            },
            CalibrationError::InvalidParameters { reason } => {
                let mut text = String::from_str("Invalid calibration parameters: ");
                text.append(reason.as_str());
                text
            },
        }
    }
}

impl YuNetError {
    /// The text of the error.
    pub open spec fn text(self) -> Seq<char> {
        match self {
            YuNetError::SessionCreation(inner) => "ONNX session creation failed: "@ + inner@,
            YuNetError::Preprocessing(inner) => "Image preprocessing failed: "@ + inner@,
            YuNetError::Inference(inner) => "Model inference failed: "@ + inner@,
            YuNetError::NoFacesDetected => "No faces detected in frame"@,
            YuNetError::InvalidOutput => "Invalid model output format"@,
        }
    }

    /// Writes the text of the error.
    pub fn to_string(&self) -> (r: String)
        ensures
            r@ == self.text(),
    {
        match self {
            YuNetError::SessionCreation(inner) => {
                let mut text = String::from_str("ONNX session creation failed: ");
                text.append(inner.as_str());
                text
            },
            YuNetError::Preprocessing(inner) => {
                let mut text = String::from_str("Image preprocessing failed: ");
                text.append(inner.as_str());
                text
            },
            YuNetError::Inference(inner) => {
                let mut text = String::from_str("Model inference failed: ");
                text.append(inner.as_str());
                text
            },
            YuNetError::NoFacesDetected => {
                String::from_str("No faces detected in frame")
            },
            YuNetError::InvalidOutput => {
                String::from_str("Invalid model output format")
            },
        }
    }
}

impl SensorError {
    /// The text of the error.
    pub open spec fn text(self) -> Seq<char> {
        match self {
            SensorError::CameraInit(inner) => "Camera initialization failed: "@ + inner@,
            SensorError::OnnxEnvironment(inner) => "ONNX environment creation failed: "@ + inner@,
            SensorError::ModelLoading(inner) => "Emotion model loading failed: "@ + inner@,
            SensorError::FaceDetection(inner) => "Face detection error: "@ + inner.text(),
            SensorError::Calibration(inner) => "Calibration error: "@ + inner.text(),
            SensorError::FrameProcessing(inner) => "Frame processing failed: "@ + inner@,
            SensorError::ChannelError => "Channel communication error"@,
            SensorError::NotInitialized => "Sensor not initialized"@,
        }
    }

    /// Writes the text of the error.
    pub fn to_string(&self) -> (r: String)
        ensures
            r@ == self.text(),
    {
        match self {
            SensorError::CameraInit(inner) => {
                let mut text = String::from_str("Camera initialization failed: ");
                text.append(inner.as_str());
                text
            },
            SensorError::OnnxEnvironment(inner) => {
                let mut text = String::from_str("ONNX environment creation failed: ");
                text.append(inner.as_str());
                text
            },
            SensorError::ModelLoading(inner) => {
                let mut text = String::from_str("Emotion model loading failed: ");
                text.append(inner.as_str());
                text
            },
            SensorError::FaceDetection(inner) => {
                let mut text = String::from_str("Face detection error: ");
                let detail = inner.to_string();
                text.append(detail.as_str());
                text
            },
            SensorError::Calibration(inner) => {
                let mut text = String::from_str("Calibration error: ");
                let detail = inner.to_string();
                text.append(detail.as_str());
                text
            },
            SensorError::FrameProcessing(inner) => {
                let mut text = String::from_str("Frame processing failed: ");
                text.append(inner.as_str());
                text
            },
            SensorError::ChannelError => {
                String::from_str("Channel communication error")
            },
            SensorError::NotInitialized => {
                String::from_str("Sensor not initialized")
            },
        }
    }
}

impl From<CameraError> for FearError {
    fn from(error: CameraError) -> (r: Self) {
        FearError::Camera(error)
    }
}

impl FromSpecImpl<CameraError> for FearError {
    open spec fn obeys_from_spec() -> bool {
        true
    }

    open spec fn from_spec(error: CameraError) -> Self {
        FearError::Camera(error)
    }
}

impl From<YuNetError> for SensorError {
    fn from(error: YuNetError) -> (r: Self) {
        SensorError::FaceDetection(error)
    }
}

impl FromSpecImpl<YuNetError> for SensorError {
    open spec fn obeys_from_spec() -> bool {
        true
    }

    open spec fn from_spec(error: YuNetError) -> Self {
        SensorError::FaceDetection(error)
    }
}

impl From<CalibrationError> for SensorError {
    fn from(error: CalibrationError) -> (r: Self) {
        SensorError::Calibration(error)
    }
}

impl FromSpecImpl<CalibrationError> for SensorError {
    open spec fn obeys_from_spec() -> bool {
        true
    }

    open spec fn from_spec(error: CalibrationError) -> Self {
        SensorError::Calibration(error)
    }
}

} // verus!
