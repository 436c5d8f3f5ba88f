//! Device settings shared by every kind of LED controller, the settings
//! specific to each controller, and the step that selects a device type.

use vstd::prelude::*;

verus! {

/// The kinds of LED controller the visualizer can drive.
#[allow(non_camel_case_types)]
#[derive(Debug, PartialEq, Eq, Structural, Clone, Copy)]
pub enum DeviceType {
    ESP8266,
    RASPBERRY_PI,
    BLINKSTICK,
}

/// Outcome of a configuration step.
#[derive(Debug, PartialEq, Eq, Structural, Clone, Copy)]
pub enum StatusType {
    ERROR,
    OK,
}

/// Settings that do not depend on the kind of controller.
#[derive(Debug)]
pub struct Devicecfg {
    /// Whether or not to display a GUI plot of the visualization.
    pub use_gui: bool,
    /// Whether to display the FPS when running (can reduce performance).
    pub display_fps: bool,
    /// Number of pixels in the LED strip (must match the controller firmware).
    pub pixel_num: u8,
    /// Location of the gamma correction table.
    pub gamma_table_path: String,
    /// Sampling frequency of the microphone in Hz.
    pub mic_rate: u32,
    /// Desired refresh rate of the visualization (frames per second).
    pub fps: u8,
    /// Frequencies below this value are removed during audio processing.
    pub min_led_fps: u32,
    /// Frequencies above this value are removed during audio processing.
    pub max_led_fps: u32,
    /// The kind of controller these settings are for.
    pub device_type: DeviceType,
}

impl Devicecfg {
    /// The default settings: GUI and FPS display on, 65 pixels, gamma table
    /// at "directory", 44.1 kHz microphone, 60 frames per second, a
    /// 200..12000 Hz audio band, and an ESP8266 controller.
    pub open spec fn is_default(self) -> bool {
        &&& self.use_gui
        &&& self.display_fps
        &&& self.pixel_num == 65
        &&& self.gamma_table_path@ == "directory"@
        &&& self.mic_rate == 44_100
        &&& self.fps == 60
        &&& self.min_led_fps == 200
        &&& self.max_led_fps == 12_000
        &&& self.device_type == DeviceType::ESP8266
    }

    /// These settings with the device type replaced and everything else kept.
    pub open spec fn with_device_type(self, device_type: DeviceType) -> Devicecfg {
        Devicecfg { device_type, ..self }
    }
}

impl Default for Devicecfg {
    fn default() -> (cfg: Devicecfg)
        ensures
            cfg.is_default(),
    {
        Devicecfg {
            use_gui: true,
            display_fps: true,
            pixel_num: 65,
            gamma_table_path: "directory".to_string(),
            mic_rate: 44_100,
            fps: 60,
            min_led_fps: 200,
            max_led_fps: 12_000,
            device_type: DeviceType::ESP8266,
        }
    }
}

/// Settings for a Raspberry Pi driving the strip directly.
#[derive(Debug)]
pub struct RaspberryPiCfg {
    /// Settings that do not depend on the kind of controller.
    pub generic_specs: Devicecfg,
    /// GPIO pin connected to the LED strip pixels (must support PWM).
    pub led_pin: u8,
    /// LED signal frequency in Hz (usually 800 kHz).
    pub led_freq_hz: u32,
    /// DMA channel used for generating the PWM signal.
    pub led_dma: u8,
    /// Brightness of the LED strip between 0 and 255.
    pub brightness: u8,
    /// Set if using an inverting logic level converter.
    pub led_invert: bool,
    /// Set because the Raspberry Pi does not use hardware dithering.
    pub software_gamma_correction: bool,
}

impl Default for RaspberryPiCfg {
    fn default() -> (cfg: RaspberryPiCfg)
        ensures
            cfg.generic_specs.is_default(),
            cfg.led_pin == 18,
            cfg.led_freq_hz == 800_000,
            cfg.led_dma == 5,
            cfg.brightness == 255,
            cfg.led_invert,
            cfg.software_gamma_correction,
    {
        RaspberryPiCfg {
            generic_specs: Devicecfg::default(),
            led_pin: 18,
            led_freq_hz: 800_000,
            led_dma: 5,
            brightness: 255,
            led_invert: true,
            software_gamma_correction: true,
        }
    }
}

/// Settings for an ESP8266 that receives the pixels over UDP.
#[derive(Debug)]
pub struct Esp8266Cfg {
    /// Settings that do not depend on the kind of controller.
    pub generic_specs: Devicecfg,
    /// The four octets of the ESP8266's IPv4 address, most significant first.
    pub udp_ip: [u8; 4],
    /// Port number used for socket communication with the ESP8266.
    pub udp_port: u16,
    /// Off: the ESP8266 does its own gamma correction.
    pub software_gamma_correction: bool,
}

impl Default for Esp8266Cfg {
    fn default() -> (cfg: Esp8266Cfg)
        ensures
            cfg.generic_specs.is_default(),
            cfg.udp_ip@ == seq![192u8, 168u8, 2u8, 165u8],
            cfg.udp_port == 7777,
            !cfg.software_gamma_correction,
    {
        Esp8266Cfg {
            generic_specs: Devicecfg::default(),
            udp_ip: [192, 168, 2, 165],
            udp_port: 7777,
            software_gamma_correction: false,
        }
    }
}

/// Settings for a BlinkStick.
#[derive(Debug)]
pub struct BlinkstickCfg {
    /// Settings that do not depend on the kind of controller.
    pub generic_specs: Devicecfg,
    /// Set because the BlinkStick does not use hardware dithering.
    pub software_gamma_correction: bool,
}

impl Default for BlinkstickCfg {
    fn default() -> (cfg: BlinkstickCfg)
        ensures
            cfg.generic_specs.is_default(),
            cfg.software_gamma_correction,
    {
        BlinkstickCfg { generic_specs: Devicecfg::default(), software_gamma_correction: true }
    }
}

/// A controller-specific configuration that can mark its generic settings
/// with its own device type.
pub trait DeviceTypeInheritance {
    /// Sets the device type of the generic settings to this controller's type.
    fn transmit_type(&mut self);
}

impl DeviceTypeInheritance for RaspberryPiCfg {
    fn transmit_type(&mut self)
        ensures
            final(self).generic_specs == old(self).generic_specs.with_device_type(
                DeviceType::RASPBERRY_PI,
            ),
            final(self).generic_specs.device_type == DeviceType::RASPBERRY_PI,
            final(self).generic_specs.use_gui == old(self).generic_specs.use_gui,
            final(self).generic_specs.display_fps == old(self).generic_specs.display_fps,
            final(self).generic_specs.pixel_num == old(self).generic_specs.pixel_num,
            final(self).generic_specs.gamma_table_path == old(self).generic_specs.gamma_table_path,
            final(self).generic_specs.mic_rate == old(self).generic_specs.mic_rate,
            final(self).generic_specs.fps == old(self).generic_specs.fps,
            final(self).generic_specs.min_led_fps == old(self).generic_specs.min_led_fps,
            final(self).generic_specs.max_led_fps == old(self).generic_specs.max_led_fps,
            final(self).led_pin == old(self).led_pin,
            final(self).led_freq_hz == old(self).led_freq_hz,
            final(self).led_dma == old(self).led_dma,
            final(self).brightness == old(self).brightness,
            final(self).led_invert == old(self).led_invert,
            final(self).software_gamma_correction == old(self).software_gamma_correction,
    {
        self.generic_specs.device_type = DeviceType::RASPBERRY_PI;
    }
}

impl DeviceTypeInheritance for Esp8266Cfg {
    fn transmit_type(&mut self)
        ensures
            final(self).generic_specs == old(self).generic_specs.with_device_type(
                DeviceType::ESP8266,
            ),
            final(self).generic_specs.device_type == DeviceType::ESP8266,
            final(self).generic_specs.use_gui == old(self).generic_specs.use_gui,
            final(self).generic_specs.display_fps == old(self).generic_specs.display_fps,
            final(self).generic_specs.pixel_num == old(self).generic_specs.pixel_num,
            final(self).generic_specs.gamma_table_path == old(self).generic_specs.gamma_table_path,
            final(self).generic_specs.mic_rate == old(self).generic_specs.mic_rate,
            final(self).generic_specs.fps == old(self).generic_specs.fps,
            final(self).generic_specs.min_led_fps == old(self).generic_specs.min_led_fps,
            final(self).generic_specs.max_led_fps == old(self).generic_specs.max_led_fps,
            final(self).udp_ip == old(self).udp_ip,
            final(self).udp_port == old(self).udp_port,
            final(self).software_gamma_correction == old(self).software_gamma_correction,
    {
        self.generic_specs.device_type = DeviceType::ESP8266;
    }
}

impl DeviceTypeInheritance for BlinkstickCfg {
    fn transmit_type(&mut self)
        ensures
            final(self).generic_specs == old(self).generic_specs.with_device_type(
                DeviceType::BLINKSTICK,
            ),
            final(self).generic_specs.device_type == DeviceType::BLINKSTICK,
            final(self).generic_specs.use_gui == old(self).generic_specs.use_gui,
            final(self).generic_specs.display_fps == old(self).generic_specs.display_fps,
            final(self).generic_specs.pixel_num == old(self).generic_specs.pixel_num,
            final(self).generic_specs.gamma_table_path == old(self).generic_specs.gamma_table_path,
            final(self).generic_specs.mic_rate == old(self).generic_specs.mic_rate,
            final(self).generic_specs.fps == old(self).generic_specs.fps,
            final(self).generic_specs.min_led_fps == old(self).generic_specs.min_led_fps,
            final(self).generic_specs.max_led_fps == old(self).generic_specs.max_led_fps,
            final(self).software_gamma_correction == old(self).software_gamma_correction,
    {
        self.generic_specs.device_type = DeviceType::BLINKSTICK;
    }
}

/// The device type that `setup_device` records for a requested device:
/// a BlinkStick keeps its own type, every other request is recorded as a
/// Raspberry Pi.
pub open spec fn selected_device_type(requested: DeviceType) -> DeviceType {
    match requested {
        DeviceType::ESP8266 => DeviceType::RASPBERRY_PI,
        DeviceType::RASPBERRY_PI => DeviceType::RASPBERRY_PI,
        DeviceType::BLINKSTICK => DeviceType::BLINKSTICK,
    }
}

/// Records the device type for `cfg_device` in the settings; every other
/// setting is left as it was. Always succeeds.
pub fn setup_device(cfg_device: DeviceType, cfg_settings: &mut Devicecfg) -> (status: StatusType)
    ensures
        status == StatusType::OK,
        *final(cfg_settings) == old(cfg_settings).with_device_type(selected_device_type(cfg_device)),
        final(cfg_settings).device_type == (match cfg_device {
            DeviceType::BLINKSTICK => DeviceType::BLINKSTICK,
            _ => DeviceType::RASPBERRY_PI,
        }),
        final(cfg_settings).use_gui == old(cfg_settings).use_gui,
        final(cfg_settings).display_fps == old(cfg_settings).display_fps,
        final(cfg_settings).pixel_num == old(cfg_settings).pixel_num,
        final(cfg_settings).gamma_table_path == old(cfg_settings).gamma_table_path,
        final(cfg_settings).mic_rate == old(cfg_settings).mic_rate,
        final(cfg_settings).fps == old(cfg_settings).fps,
        final(cfg_settings).min_led_fps == old(cfg_settings).min_led_fps,
        final(cfg_settings).max_led_fps == old(cfg_settings).max_led_fps,
{
    match cfg_device {
        DeviceType::ESP8266 => {
            cfg_settings.device_type = DeviceType::RASPBERRY_PI;
            StatusType::OK
        },
        DeviceType::RASPBERRY_PI => {
            cfg_settings.device_type = DeviceType::RASPBERRY_PI;
            StatusType::OK
        },
        DeviceType::BLINKSTICK => {
            cfg_settings.device_type = DeviceType::BLINKSTICK;
            StatusType::OK
        },
    }
}

/// Replacing the device type of settings changes the device type to the
/// given one and keeps every other setting.
pub proof fn law_with_device_type_changes_only_device_type(cfg: Devicecfg, device_type: DeviceType)
    ensures
        cfg.with_device_type(device_type).device_type == device_type,
        cfg.with_device_type(device_type).use_gui == cfg.use_gui,
        cfg.with_device_type(device_type).display_fps == cfg.display_fps,
        cfg.with_device_type(device_type).pixel_num == cfg.pixel_num,
        cfg.with_device_type(device_type).gamma_table_path == cfg.gamma_table_path,
        cfg.with_device_type(device_type).mic_rate == cfg.mic_rate,
        cfg.with_device_type(device_type).fps == cfg.fps,
        cfg.with_device_type(device_type).min_led_fps == cfg.min_led_fps,
        cfg.with_device_type(device_type).max_led_fps == cfg.max_led_fps,
{
}

/// Setting the device type twice keeps only the second choice: the settings
/// are as if only the second type had been set.
pub proof fn law_device_type_last_write_wins(cfg: Devicecfg, first: DeviceType, second: DeviceType)
    ensures
        cfg.with_device_type(first).with_device_type(second) == cfg.with_device_type(second),
{
}

/// Two calls of `setup_device` leave the settings as the second call alone
/// would have left them; in particular a repeated call changes nothing more.
pub proof fn law_setup_device_last_call_wins(cfg: Devicecfg, first: DeviceType, second: DeviceType)
    ensures
        cfg.with_device_type(selected_device_type(first)).with_device_type(
            selected_device_type(second),
        ) == cfg.with_device_type(selected_device_type(second)),
        cfg.with_device_type(selected_device_type(first)).with_device_type(
            selected_device_type(first),
        ) == cfg.with_device_type(selected_device_type(first)),
{
}

/// `setup_device` records the requested device type for a Raspberry Pi or a
/// BlinkStick (an ESP8266 request is recorded as a Raspberry Pi).
pub proof fn law_setup_device_records_request(requested: DeviceType)
    requires
        requested != DeviceType::ESP8266,
    ensures
        selected_device_type(requested) == requested,
{
}

/// `transmit_type` on a Raspberry Pi or BlinkStick configuration does to
/// its generic settings exactly what `setup_device` with that controller's
/// type does.
pub proof fn law_transmit_type_agrees_with_setup_device(cfg: Devicecfg)
    ensures
        cfg.with_device_type(DeviceType::RASPBERRY_PI) == cfg.with_device_type(
            selected_device_type(DeviceType::RASPBERRY_PI),
        ),
        cfg.with_device_type(DeviceType::BLINKSTICK) == cfg.with_device_type(
            selected_device_type(DeviceType::BLINKSTICK),
        ),
{
}

} // verus!
