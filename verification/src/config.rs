//! Configuration of the fear detection, the sensor and the terrain.

use crate::error::ConfigError;
use crate::scalar::lemma_key_orders_values;
use crate::scalar::Scalar;
use crate::scalar::HUNDREDTH_BITS;
use crate::scalar::ONE_BITS;
use crate::scalar::ONE_HUNDRED_TWENTY_BITS;
use crate::scalar::THIRTY_BITS;
use crate::scalar::ZERO_BITS;
use crate::time::duration_nanos;
use crate::types::CameraConfig;
use std::time::Duration;
use vstd::prelude::*;
use vstd::string::*;

verus! {

/// Bit pattern of `10.0`.
pub const TEN_BITS: u32 = 0x4120_0000;

/// Bit pattern of `64.0`.
pub const SIXTY_FOUR_BITS: u32 = 0x4280_0000;

/// `num_cpus::get` counts the logical processors that this process may use;
/// the count depends on the machine, so nothing is said of it here.
pub assume_specification[ num_cpus::get ]() -> (r: usize)
;

/// Main configuration for fear detection.
#[derive(Debug, Clone)]
pub struct FearConfig {
    /// Path to the ONNX emotion model.
    pub model_path: String,
    /// Camera configuration.
    pub camera: CameraConfig,
    /// Calibration duration.
    pub calibration_duration: Duration,
    /// Whether to enable debug logging.
    pub debug: bool,
    /// Maximum inference timeout.
    pub inference_timeout: Duration,
}

/// What `FearConfig::validate` finds wrong first, if anything.
pub enum FearConfigFault {
    /// Nothing is wrong.
    Sound,
    /// The model path is empty.
    NoModelPath,
    /// The calibration lasts no time at all.
    NoCalibrationTime,
    /// The inference timeout lasts no time at all.
    NoInferenceTime,
}

impl Default for FearConfig {
    fn default() -> (r: Self)
        ensures
            r.model_path@ == "assets/models/face_emotion.onnx"@,
            r.camera.device_id == 0,
            r.camera.fps == 30,
            r.camera.width == 640,
            r.camera.height == 480,
            duration_nanos(r.calibration_duration) == 30_000_000_000,
            !r.debug,
            duration_nanos(r.inference_timeout) == 100_000_000,
            r.fault() is Sound,
    {
        let r = Self {
            model_path: String::from_str("assets/models/face_emotion.onnx"),
            camera: CameraConfig::default(),
            calibration_duration: Duration::from_secs(30),
            debug: false,
            inference_timeout: Duration::from_millis(100),
        };
        proof {
            reveal_strlit("assets/models/face_emotion.onnx");
        }
        r
    }
}

impl FearConfig {
    /// The first fault of the configuration, in the order in which the
    /// fields are checked.
    pub open spec fn fault(self) -> FearConfigFault {
        if self.model_path@.len() == 0 {
            FearConfigFault::NoModelPath
        } else if duration_nanos(self.calibration_duration) == 0 {
            FearConfigFault::NoCalibrationTime
        } else if duration_nanos(self.inference_timeout) == 0 {
            FearConfigFault::NoInferenceTime
        } else {
            FearConfigFault::Sound
        }
    }

    /// Create a new configuration with default values.
    pub fn new() -> (r: Self)
        ensures
            r.model_path@ == "assets/models/face_emotion.onnx"@,
            r.camera.device_id == 0,
            r.camera.fps == 30,
            r.camera.width == 640,
            r.camera.height == 480,
            duration_nanos(r.calibration_duration) == 30_000_000_000,
            !r.debug,
            duration_nanos(r.inference_timeout) == 100_000_000,
            r.fault() is Sound,
    {
        Self::default()
    }

    /// Set the model path.
    pub fn with_model_path(self, path: &str) -> (r: Self)
        ensures
            r.model_path@ == path@,
            r.camera == self.camera,
            r.calibration_duration == self.calibration_duration,
            r.debug == self.debug,
            r.inference_timeout == self.inference_timeout,
    {
        let mut config = self;
        config.model_path = String::from_str(path);
        config
    }

    /// Set the camera device ID.
    pub fn with_camera_device(self, device_id: u32) -> (r: Self)
        ensures
            r.camera.device_id == device_id,
            r.camera.fps == self.camera.fps,
            r.camera.width == self.camera.width,
            r.camera.height == self.camera.height,
            r.model_path == self.model_path,
            r.calibration_duration == self.calibration_duration,
            r.debug == self.debug,
            r.inference_timeout == self.inference_timeout,
    {
        let mut config = self;
        config.camera.device_id = device_id;
        config
    }

    /// Set the calibration duration.
    pub fn with_calibration_duration(self, duration: Duration) -> (r: Self)
        ensures
            r.calibration_duration == duration,
            r.model_path == self.model_path,
            r.camera == self.camera,
            r.debug == self.debug,
            r.inference_timeout == self.inference_timeout,
    {
        let mut config = self;
        config.calibration_duration = duration;
        config
    }

    /// Enable debug logging.
    pub fn with_debug(self, debug: bool) -> (r: Self)
        ensures
            r.debug == debug,
            r.model_path == self.model_path,
            r.camera == self.camera,
            r.calibration_duration == self.calibration_duration,
            r.inference_timeout == self.inference_timeout,
    {
        let mut config = self;
        config.debug = debug;
        config
    }

    /// Validate the configuration: the model path is not empty, and the
    /// calibration and the inference timeout each last longer than no time
    /// at all, however short. The first fault found is the one reported.
    pub fn validate(&self) -> (r: Result<(), ConfigError>)
        ensures
            r.is_ok() <==> self.fault() is Sound,
            self.fault() is NoModelPath ==> (r matches Err(ConfigError::MissingField { field })
                && field@ == "model_path"@),
            self.fault() is NoCalibrationTime ==> (r matches Err(
                ConfigError::InvalidValue { field, message },
            ) && field@ == "calibration_duration"@ && message@ == "must be greater than 0"@),
            self.fault() is NoInferenceTime ==> (r matches Err(
                ConfigError::InvalidValue { field, message },
            ) && field@ == "inference_timeout"@ && message@ == "must be greater than 0"@),
    {
        if self.model_path.as_str().is_empty() {
            return Err(ConfigError::MissingField { field: String::from_str("model_path") });
        }
        if self.calibration_duration.as_nanos() == 0 {
            return Err(
                ConfigError::InvalidValue {
                    field: String::from_str("calibration_duration"),
                    message: String::from_str("must be greater than 0"),
                },
            );
        }
        if self.inference_timeout.as_nanos() == 0 {
            return Err(
                ConfigError::InvalidValue {
                    field: String::from_str("inference_timeout"),
                    message: String::from_str("must be greater than 0"),
                },
            );
        }
        Ok(())
    }
}

/// Terrain generation configuration.
#[derive(Debug, Clone)]
pub struct TerrainConfig {
    /// Chunk size in blocks.
    pub chunk_size: u32,
    /// Render distance in chunks.
    pub render_distance: u32,
    /// Base terrain height.
    pub base_height: Scalar,
    /// Fear influence multiplier.
    pub fear_multiplier: Scalar,
    /// Noise scale.
    pub noise_scale: Scalar,
}

impl Default for TerrainConfig {
    fn default() -> (r: Self)
        ensures
            r.chunk_size == 16,
            r.render_distance == 8,
            r.base_height == Scalar::of(SIXTY_FOUR_BITS),
            r.fear_multiplier == Scalar::of(TEN_BITS),
            r.noise_scale == Scalar::of(HUNDREDTH_BITS),
    {
        Self {
            chunk_size: 16,
            render_distance: 8,
            base_height: Scalar::from_bits(SIXTY_FOUR_BITS),
            fear_multiplier: Scalar::from_bits(TEN_BITS),
            noise_scale: Scalar::from_bits(HUNDREDTH_BITS),
        }
    }
}

/// Sensor configuration.
#[derive(Debug, Clone)]
pub struct SensorConfig {
    /// Path to emotion model, where the built-in one is not wanted.
    pub emotion_model_path: Option<String>,
    /// Number of ONNX runtime threads.
    pub onnx_threads: usize,
    /// Whether to freeze calibration after initial period.
    pub freeze_calibration: bool,
    /// Camera device ID.
    pub camera_id: u32,
    /// Target FPS.
    pub target_fps: Scalar,
    /// Channel buffer size for back-pressure.
    pub channel_buffer_size: usize,
    /// Metrics server port.
    pub metrics_port: u16,
    /// gRPC server socket path.
    pub grpc_socket_path: String,
}

/// Settings read from the environment: each holds a value where its variable
/// was set to something that could be read as one.
#[derive(Debug, Clone)]
pub struct EnvOverrides {
    /// Number of ONNX runtime threads.
    pub threads: Option<usize>,
    /// Whether to freeze calibration after initial period.
    pub freeze_calibration: Option<bool>,
    /// Camera device ID.
    pub camera_id: Option<u32>,
    /// Target FPS.
    pub target_fps: Option<Scalar>,
    /// Channel buffer size.
    pub buffer_size: Option<usize>,
    /// Metrics server port.
    pub metrics_port: Option<u16>,
    /// gRPC server socket path.
    pub grpc_socket: Option<String>,
}

/// What `SensorConfig::validate` finds wrong first, if anything.
pub enum SensorConfigFault {
    /// Nothing is wrong.
    Sound,
    /// No thread is given to the runtime.
    NoThreads,
    /// The target frame rate is zero, below zero or no number.
    NoFrameRate,
    /// The channel has no room for a frame.
    NoBuffer,
    /// The socket path is empty.
    NoSocketPath,
}

/// The frame rate restricted to the range from 1 to 120 frames per second.
pub open spec fn bounded_fps(fps: Scalar) -> Scalar {
    fps.spec_max(Scalar::of(ONE_BITS)).spec_min(Scalar::of(ONE_HUNDRED_TWENTY_BITS))
}

/// At least one thread.
pub open spec fn at_least_one(n: usize) -> usize {
    if n == 0 {
        1
    } else {
        n
    }
}

fn one_or_more(n: usize) -> (r: usize)
    ensures
        r == at_least_one(n),
{
    if n == 0 {
        1
    } else {
        n
    }
}

impl Default for SensorConfig {
    fn default() -> (r: Self)
        ensures
            r.emotion_model_path.is_none(),
            r.onnx_threads >= 1,
            !r.freeze_calibration,
            r.camera_id == 0,
            r.target_fps == Scalar::of(THIRTY_BITS),
            r.channel_buffer_size == 2,
            r.metrics_port == 9090,
            r.grpc_socket_path@ == "/tmp/spectre_sensor.sock"@,
            r.fault() is Sound,
    {
        proof {
            reveal_strlit("/tmp/spectre_sensor.sock");
            lemma_key_orders_values(Scalar::of(ZERO_BITS), Scalar::of(THIRTY_BITS));
        }
        Self {
            emotion_model_path: None,
            onnx_threads: one_or_more(num_cpus::get()),
            freeze_calibration: false,
            camera_id: 0,
            target_fps: Scalar::from_bits(THIRTY_BITS),
            channel_buffer_size: 2,
            metrics_port: 9090,
            grpc_socket_path: String::from_str("/tmp/spectre_sensor.sock"),
        }
    }
}

impl SensorConfig {
    /// The first fault of the configuration, in the order in which the
    /// fields are checked.
    pub open spec fn fault(self) -> SensorConfigFault {
        if self.onnx_threads == 0 {
            SensorConfigFault::NoThreads
        } else if !Scalar::of(ZERO_BITS).lt(self.target_fps) {
            SensorConfigFault::NoFrameRate
        } else if self.channel_buffer_size == 0 {
            SensorConfigFault::NoBuffer
        } else if self.grpc_socket_path@.len() == 0 {
            SensorConfigFault::NoSocketPath
        } else {
            SensorConfigFault::Sound
        }
    }

    /// The default configuration with the settings of the environment laid
    /// over it. Without a thread count from the environment the processors
    /// are counted; either way at least one thread is configured.
    pub fn from_env(overrides: EnvOverrides) -> (r: Self)
        ensures
            r.emotion_model_path.is_none(),
            r.onnx_threads >= 1,
            overrides.threads matches Some(n) ==> r.onnx_threads == at_least_one(n),
            r.freeze_calibration == match overrides.freeze_calibration {
                Some(freeze) => freeze,
                None => false,
            },
            r.camera_id == match overrides.camera_id {
                Some(id) => id,
                None => 0,
            },
            r.target_fps == match overrides.target_fps {
                Some(fps) => fps,
                None => Scalar::of(THIRTY_BITS),
            },
            r.channel_buffer_size == match overrides.buffer_size {
                Some(size) => size,
                None => 2,
            },
            r.metrics_port == match overrides.metrics_port {
                Some(port) => port,
                None => 9090,
            },
            r.grpc_socket_path@ == match overrides.grpc_socket {
                Some(path) => path@,
                None => "/tmp/spectre_sensor.sock"@,
            },
    {
        let mut config = Self::default();
        match overrides.threads {
            Some(n) => {
                config.onnx_threads = one_or_more(n);
            },
            None => {},
        }
        match overrides.freeze_calibration {
            Some(freeze) => {
                config.freeze_calibration = freeze;
            },
            None => {},
        }
        match overrides.camera_id {
            Some(id) => {
                config.camera_id = id;
            },
            None => {},
        }
        match overrides.target_fps {
            Some(fps) => {
                config.target_fps = fps;
            },
            None => {},
        }
        match overrides.buffer_size {
            Some(size) => {
                config.channel_buffer_size = size;
            },
            None => {},
        }
        match overrides.metrics_port {
            Some(port) => {
                config.metrics_port = port;
            },
            None => {},
        }
        match overrides.grpc_socket {
            Some(path) => {
                config.grpc_socket_path = path;
            },
            None => {},
        }
        config
    }

    /// Set emotion model path.
    pub fn with_model_path(self, path: String) -> (r: Self)
        ensures
            r.emotion_model_path == Some(path),
            r.onnx_threads == self.onnx_threads,
            r.freeze_calibration == self.freeze_calibration,
            r.camera_id == self.camera_id,
            r.target_fps == self.target_fps,
            r.channel_buffer_size == self.channel_buffer_size,
            r.metrics_port == self.metrics_port,
            r.grpc_socket_path == self.grpc_socket_path,
    {
        let mut config = self;
        config.emotion_model_path = Some(path);
        config
    }

    /// Set freeze calibration flag.
    pub fn with_freeze_calibration(self, freeze: bool) -> (r: Self)
        ensures
            r.freeze_calibration == freeze,
            r.emotion_model_path == self.emotion_model_path,
            r.onnx_threads == self.onnx_threads,
            r.camera_id == self.camera_id,
            r.target_fps == self.target_fps,
            r.channel_buffer_size == self.channel_buffer_size,
            r.metrics_port == self.metrics_port,
            r.grpc_socket_path == self.grpc_socket_path,
    {
        let mut config = self;
        config.freeze_calibration = freeze;
        config
    }

    /// Set camera ID.
    pub fn with_camera_id(self, camera_id: u32) -> (r: Self)
        ensures
            r.camera_id == camera_id,
            r.emotion_model_path == self.emotion_model_path,
            r.onnx_threads == self.onnx_threads,
            r.freeze_calibration == self.freeze_calibration,
            r.target_fps == self.target_fps,
            r.channel_buffer_size == self.channel_buffer_size,
            r.metrics_port == self.metrics_port,
            r.grpc_socket_path == self.grpc_socket_path,
    {
        let mut config = self;
        config.camera_id = camera_id;
        config
    }

    /// Set target FPS, held to the range from 1 to 120.
    pub fn with_target_fps(self, fps: Scalar) -> (r: Self)
        ensures
            r.target_fps == bounded_fps(fps),
            r.emotion_model_path == self.emotion_model_path,
            r.onnx_threads == self.onnx_threads,
            r.freeze_calibration == self.freeze_calibration,
            r.camera_id == self.camera_id,
            r.channel_buffer_size == self.channel_buffer_size,
            r.metrics_port == self.metrics_port,
            r.grpc_socket_path == self.grpc_socket_path,
    {
        let mut config = self;
        config.target_fps = fps.max(Scalar::one()).min(
            Scalar::from_bits(ONE_HUNDRED_TWENTY_BITS),
        );
        config
    }

    /// Set ONNX thread count, at least 1.
    pub fn with_onnx_threads(self, threads: usize) -> (r: Self)
        ensures
            r.onnx_threads == at_least_one(threads),
            r.emotion_model_path == self.emotion_model_path,
            r.freeze_calibration == self.freeze_calibration,
            r.camera_id == self.camera_id,
            r.target_fps == self.target_fps,
            r.channel_buffer_size == self.channel_buffer_size,
            r.metrics_port == self.metrics_port,
            r.grpc_socket_path == self.grpc_socket_path,
    {
        let mut config = self;
        config.onnx_threads = one_or_more(threads);
        config
    }

    /// Set channel buffer size, at least 1.
    pub fn with_buffer_size(self, size: usize) -> (r: Self)
        ensures
            r.channel_buffer_size == at_least_one(size),
            r.emotion_model_path == self.emotion_model_path,
            r.onnx_threads == self.onnx_threads,
            r.freeze_calibration == self.freeze_calibration,
            r.camera_id == self.camera_id,
            r.target_fps == self.target_fps,
            r.metrics_port == self.metrics_port,
            r.grpc_socket_path == self.grpc_socket_path,
    {
        let mut config = self;
        config.channel_buffer_size = one_or_more(size);
        config
    }

    /// Set metrics port.
    pub fn with_metrics_port(self, port: u16) -> (r: Self)
        ensures
            r.metrics_port == port,
            r.emotion_model_path == self.emotion_model_path,
            r.onnx_threads == self.onnx_threads,
            r.freeze_calibration == self.freeze_calibration,
            r.camera_id == self.camera_id,
            r.target_fps == self.target_fps,
            r.channel_buffer_size == self.channel_buffer_size,
            r.grpc_socket_path == self.grpc_socket_path,
    {
        let mut config = self;
        config.metrics_port = port;
        config
    }

    /// Set gRPC socket path.
    pub fn with_grpc_socket(self, path: String) -> (r: Self)
        ensures
            r.grpc_socket_path == path,
            r.emotion_model_path == self.emotion_model_path,
            r.onnx_threads == self.onnx_threads,
            r.freeze_calibration == self.freeze_calibration,
            r.camera_id == self.camera_id,
            r.target_fps == self.target_fps,
            r.channel_buffer_size == self.channel_buffer_size,
            r.metrics_port == self.metrics_port,
    {
        let mut config = self;
        config.grpc_socket_path = path;
        config
    }

    /// Validate configuration: at least one thread, a frame rate that is a
    /// number above zero, room for at least one frame and a socket path. The
    /// first fault found is the one reported.
    pub fn validate(&self) -> (r: Result<(), String>)
        ensures
            r.is_ok() <==> self.fault() is Sound,
            self.fault() is NoThreads ==> (r matches Err(text) && text@
                == "ONNX thread count must be at least 1"@),
            self.fault() is NoFrameRate ==> (r matches Err(text) && text@
                == "Target FPS must be positive"@),
            self.fault() is NoBuffer ==> (r matches Err(text) && text@
                == "Channel buffer size must be at least 1"@),
            self.fault() is NoSocketPath ==> (r matches Err(text) && text@
                == "gRPC socket path cannot be empty"@),
    {
        if self.onnx_threads == 0 {
            return Err(String::from_str("ONNX thread count must be at least 1"));
        }
        if !Scalar::zero().less_than(self.target_fps) {
            return Err(String::from_str("Target FPS must be positive"));
        }
        if self.channel_buffer_size == 0 {
            return Err(String::from_str("Channel buffer size must be at least 1"));
        }
        if self.grpc_socket_path.as_str().is_empty() {
            return Err(String::from_str("gRPC socket path cannot be empty"));
        }
        Ok(())
    }
}

/// The frame rate that `with_target_fps` sets is a number between 1 and 120
/// whatever was asked for.
pub proof fn lemma_bounded_fps_in_range(fps: Scalar)
    ensures
        Scalar::of(ONE_BITS).le(bounded_fps(fps)),
        bounded_fps(fps).le(Scalar::of(ONE_HUNDRED_TWENTY_BITS)),
{
    lemma_key_orders_values(Scalar::of(ONE_BITS), Scalar::of(ONE_HUNDRED_TWENTY_BITS));
}

} // verus!
