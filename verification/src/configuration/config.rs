use super::{ColorMode, Direction, ScreenDensity};
use vstd::prelude::*;
use vstd::std_specs::cmp::PartialEqSpecImpl;

verus! {

/// The bit pattern of the scale factor one, in IEEE 754 binary64.
pub const SCALE_ONE_BITS: u64 = 0x3FF0_0000_0000_0000;

/// A snapshot of the system configuration.
///
/// The two scale factors are fractions that the library only carries from
/// the host to the application. They are held as the bit patterns of their
/// IEEE 754 binary64 form.
#[derive(Debug)]
pub struct Configuration {
    pub language: String,
    pub color_mode: ColorMode,
    pub direction: Direction,
    pub screen_density: ScreenDensity,
    pub display_id: i32,
    pub has_pointer_device: bool,
    pub font_size_scale_bits: u64,
    pub font_weight_scale_bits: u64,
    pub mcc: String,
    pub mnc: String,
}

/// What a configuration snapshot says, with its texts as character
/// sequences.
pub struct ConfigurationView {
    pub language: Seq<char>,
    pub color_mode: ColorMode,
    pub direction: Direction,
    pub screen_density: ScreenDensity,
    pub display_id: i32,
    pub has_pointer_device: bool,
    pub font_size_scale_bits: u64,
    pub font_weight_scale_bits: u64,
    pub mcc: Seq<char>,
    pub mnc: Seq<char>,
}

impl View for Configuration {
    type V = ConfigurationView;

    open spec fn view(&self) -> ConfigurationView {
        ConfigurationView {
            language: self.language@,
            color_mode: self.color_mode,
            direction: self.direction,
            screen_density: self.screen_density,
            display_id: self.display_id,
            has_pointer_device: self.has_pointer_device,
            font_size_scale_bits: self.font_size_scale_bits,
            font_weight_scale_bits: self.font_weight_scale_bits,
            mcc: self.mcc@,
            mnc: self.mnc@,
        }
    }
}

impl ConfigurationView {
    /// The configuration before the host has reported any: no language, no
    /// operator codes, nothing set, both scale factors one.
    pub open spec fn initial() -> ConfigurationView {
        ConfigurationView {
            language: Seq::<char>::empty(),
            color_mode: ColorMode::NoSet,
            direction: Direction::NoSet,
            screen_density: ScreenDensity::NoSet,
            display_id: 0,
            has_pointer_device: false,
            font_size_scale_bits: SCALE_ONE_BITS,
            font_weight_scale_bits: SCALE_ONE_BITS,
            mcc: Seq::<char>::empty(),
            mnc: Seq::<char>::empty(),
        }
    }

    /// The configuration that the host's raw numbers and texts describe.
    pub open spec fn of_host(
        language: Seq<char>,
        color_mode: int,
        direction: int,
        screen_density: int,
        display_id: i32,
        has_pointer_device: bool,
        font_size_scale_bits: u64,
        font_weight_scale_bits: u64,
        mcc: Seq<char>,
        mnc: Seq<char>,
    ) -> ConfigurationView {
        ConfigurationView {
            language,
            color_mode: ColorMode::of_code(color_mode),
            direction: Direction::of_code(direction),
            screen_density: ScreenDensity::of_code(screen_density),
            display_id,
            has_pointer_device,
            font_size_scale_bits,
            font_weight_scale_bits,
            mcc,
            mnc,
        }
    }
}

impl Configuration {
    /// The snapshot that the host's raw numbers and texts describe. Numbers
    /// that name no colour mode, orientation or density read as not set.
    pub fn from_host(
        language: String,
        color_mode: i32,
        direction: i32,
        screen_density: i32,
        display_id: i32,
        has_pointer_device: bool,
        font_size_scale_bits: u64,
        font_weight_scale_bits: u64,
        mcc: String,
        mnc: String,
    ) -> (r: Configuration)
        ensures
            r@ == ConfigurationView::of_host(
                language@,
                color_mode as int,
                direction as int,
                screen_density as int,
                display_id,
                has_pointer_device,
                font_size_scale_bits,
                font_weight_scale_bits,
                mcc@,
                mnc@,
            ),
    {
        Configuration {
            language,
            color_mode: ColorMode::from(color_mode),
            direction: Direction::from(direction),
            screen_density: ScreenDensity::from(screen_density),
            display_id,
            has_pointer_device,
            font_size_scale_bits,
            font_weight_scale_bits,
            mcc,
            mnc,
        }
    }
}

impl Clone for Configuration {
    fn clone(&self) -> (r: Configuration)
        ensures
            r@ == self@,
    {
        Configuration {
            language: self.language.clone(),
            color_mode: self.color_mode,
            direction: self.direction,
            screen_density: self.screen_density,
            display_id: self.display_id,
            has_pointer_device: self.has_pointer_device,
            font_size_scale_bits: self.font_size_scale_bits,
            font_weight_scale_bits: self.font_weight_scale_bits,
            mcc: self.mcc.clone(),
            mnc: self.mnc.clone(),
        }
    }
}

impl PartialEqSpecImpl for Configuration {
    open spec fn obeys_eq_spec() -> bool {
        true
    }

    open spec fn eq_spec(&self, other: &Configuration) -> bool {
        self@ == other@
    }
}

impl PartialEq for Configuration {
    /// Two snapshots are equal where they say the same.
    fn eq(&self, other: &Configuration) -> (r: bool) {
        self.language == other.language && self.color_mode == other.color_mode && self.direction
            == other.direction && self.screen_density == other.screen_density && self.display_id
            == other.display_id && self.has_pointer_device == other.has_pointer_device
            && self.font_size_scale_bits == other.font_size_scale_bits
            && self.font_weight_scale_bits == other.font_weight_scale_bits && self.mcc
            == other.mcc && self.mnc == other.mnc
    }
}

impl Default for Configuration {
    fn default() -> (r: Configuration)
        ensures
            r@ == ConfigurationView::initial(),
    {
        Configuration {
            language: String::new(),
            color_mode: ColorMode::NoSet,
            direction: Direction::NoSet,
            screen_density: ScreenDensity::NoSet,
            display_id: 0,
            has_pointer_device: false,
            font_size_scale_bits: SCALE_ONE_BITS,
            font_weight_scale_bits: SCALE_ONE_BITS,
            mcc: String::new(),
            mnc: String::new(),
        }
    }
}

} // verus!
