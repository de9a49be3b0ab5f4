use vstd::prelude::*;

verus! {

/// Screen orientation of an Android configuration.
#[derive(PartialEq, Eq, Structural, Clone, Copy, Debug)]
pub enum Orientation {
    Any,
    Port,
    Land,
    Square,
}

impl Orientation {
    /// The value that stands for the variant in the native interface.
    pub open spec fn spec_value(self) -> i32 {
        match self {
            Orientation::Any => 0x0000,
            Orientation::Port => 0x0001,
            Orientation::Land => 0x0002,
            Orientation::Square => 0x0003,
        }
    }

    /// The value that stands for the variant in the native interface.
    pub fn value(&self) -> (v: i32)
        ensures
            v == self.spec_value(),
    {
        match self {
            Orientation::Any => 0x0000,
            Orientation::Port => 0x0001,
            Orientation::Land => 0x0002,
            Orientation::Square => 0x0003,
        }
    }
}

/// Touchscreen kind of an Android configuration.
#[derive(PartialEq, Eq, Structural, Clone, Copy, Debug)]
pub enum Touchscreen {
    Any,
    NoTouch,
    Stylus,
    Finger,
}

impl Touchscreen {
    /// The value that stands for the variant in the native interface.
    pub open spec fn spec_value(self) -> i32 {
        match self {
            Touchscreen::Any => 0x0000,
            Touchscreen::NoTouch => 0x0001,
            Touchscreen::Stylus => 0x0002,
            Touchscreen::Finger => 0x0003,
        }
    }

    /// The value that stands for the variant in the native interface.
    pub fn value(&self) -> (v: i32)
        ensures
            v == self.spec_value(),
    {
        match self {
            Touchscreen::Any => 0x0000,
            Touchscreen::NoTouch => 0x0001,
            Touchscreen::Stylus => 0x0002,
            Touchscreen::Finger => 0x0003,
        }
    }
}

/// Screen density of an Android configuration, in dots per inch.
#[derive(PartialEq, Eq, Structural, Clone, Copy, Debug)]
pub enum Density {
    Default,
    Low,
    Medium,
    High,
    NoDensity,
}

impl Density {
    /// The value that stands for the variant in the native interface.
    pub open spec fn spec_value(self) -> i32 {
        match self {
            Density::Default => 0,
            Density::Low => 120,
            Density::Medium => 160,
            Density::High => 240,
            Density::NoDensity => 0xffff,
        }
    }

    /// The value that stands for the variant in the native interface.
    pub fn value(&self) -> (v: i32)
        ensures
            v == self.spec_value(),
    {
        match self {
            Density::Default => 0,
            Density::Low => 120,
            Density::Medium => 160,
            Density::High => 240,
            Density::NoDensity => 0xffff,
        }
    }
}

/// Keyboard kind of an Android configuration.
#[derive(PartialEq, Eq, Structural, Clone, Copy, Debug)]
pub enum Keyboard {
    Any,
    Nokeys,
    Qwerty,
    K12Key,
}

impl Keyboard {
    /// The value that stands for the variant in the native interface.
    pub open spec fn spec_value(self) -> i32 {
        match self {
            Keyboard::Any => 0x0000,
            Keyboard::Nokeys => 0x0001,
            Keyboard::Qwerty => 0x0002,
            Keyboard::K12Key => 0x0003,
        }
    }

    /// The value that stands for the variant in the native interface.
    pub fn value(&self) -> (v: i32)
        ensures
            v == self.spec_value(),
    {
        match self {
            Keyboard::Any => 0x0000,
            Keyboard::Nokeys => 0x0001,
            Keyboard::Qwerty => 0x0002,
            Keyboard::K12Key => 0x0003,
        }
    }
}

/// Navigation device of an Android configuration.
#[derive(PartialEq, Eq, Structural, Clone, Copy, Debug)]
pub enum Navigation {
    Any,
    Nonav,
    Dpad,
    Trackball,
    Wheel,
}

impl Navigation {
    /// The value that stands for the variant in the native interface.
    pub open spec fn spec_value(self) -> i32 {
        match self {
            Navigation::Any => 0x0000,
            Navigation::Nonav => 0x0001,
            Navigation::Dpad => 0x0002,
            Navigation::Trackball => 0x0003,
            Navigation::Wheel => 0x0004,
        }
    }

    /// The value that stands for the variant in the native interface.
    pub fn value(&self) -> (v: i32)
        ensures
            v == self.spec_value(),
    {
        match self {
            Navigation::Any => 0x0000,
            Navigation::Nonav => 0x0001,
            Navigation::Dpad => 0x0002,
            Navigation::Trackball => 0x0003,
            Navigation::Wheel => 0x0004,
        }
    }
}

/// Whether the keyboard of an Android configuration is hidden.
#[derive(PartialEq, Eq, Structural, Clone, Copy, Debug)]
pub enum KeysHidden {
    Any,
    No,
    Yes,
    Soft,
}

impl KeysHidden {
    /// The value that stands for the variant in the native interface.
    pub open spec fn spec_value(self) -> i32 {
        match self {
            KeysHidden::Any => 0x0000,
            KeysHidden::No => 0x0001,
            KeysHidden::Yes => 0x0002,
            KeysHidden::Soft => 0x0003,
        }
    }

    /// The value that stands for the variant in the native interface.
    pub fn value(&self) -> (v: i32)
        ensures
            v == self.spec_value(),
    {
        match self {
            KeysHidden::Any => 0x0000,
            KeysHidden::No => 0x0001,
            KeysHidden::Yes => 0x0002,
            KeysHidden::Soft => 0x0003,
        }
    }
}

/// Whether the navigation device of an Android configuration is hidden.
#[derive(PartialEq, Eq, Structural, Clone, Copy, Debug)]
pub enum NavHidden {
    Any,
    No,
    Yes,
}

impl NavHidden {
    /// The value that stands for the variant in the native interface.
    pub open spec fn spec_value(self) -> i32 {
        match self {
            NavHidden::Any => 0x0000,
            NavHidden::No => 0x0001,
            NavHidden::Yes => 0x0002,
        }
    }

    /// The value that stands for the variant in the native interface.
    pub fn value(&self) -> (v: i32)
        ensures
            v == self.spec_value(),
    {
        match self {
            NavHidden::Any => 0x0000,
            NavHidden::No => 0x0001,
            NavHidden::Yes => 0x0002,
        }
    }
}

/// Screen size class of an Android configuration.
#[derive(PartialEq, Eq, Structural, Clone, Copy, Debug)]
pub enum ScreenSize {
    Any,
    Small,
    Normal,
    Large,
    XLarge,
}

impl ScreenSize {
    /// The value that stands for the variant in the native interface.
    pub open spec fn spec_value(self) -> i32 {
        match self {
            ScreenSize::Any => 0x00,
            ScreenSize::Small => 0x01,
            ScreenSize::Normal => 0x02,
            ScreenSize::Large => 0x03,
            ScreenSize::XLarge => 0x04,
        }
    }

    /// The value that stands for the variant in the native interface.
    pub fn value(&self) -> (v: i32)
        ensures
            v == self.spec_value(),
    {
        match self {
            ScreenSize::Any => 0x00,
            ScreenSize::Small => 0x01,
            ScreenSize::Normal => 0x02,
            ScreenSize::Large => 0x03,
            ScreenSize::XLarge => 0x04,
        }
    }
}

/// Whether the screen of an Android configuration is long.
#[derive(PartialEq, Eq, Structural, Clone, Copy, Debug)]
pub enum ScreenLong {
    Any,
    No,
    Yes,
}

impl ScreenLong {
    /// The value that stands for the variant in the native interface.
    pub open spec fn spec_value(self) -> i32 {
        match self {
            ScreenLong::Any => 0x00,
            ScreenLong::No => 0x1,
            ScreenLong::Yes => 0x2,
        }
    }

    /// The value that stands for the variant in the native interface.
    pub fn value(&self) -> (v: i32)
        ensures
            v == self.spec_value(),
    {
        match self {
            ScreenLong::Any => 0x00,
            ScreenLong::No => 0x1,
            ScreenLong::Yes => 0x2,
        }
    }
}

/// User-interface mode of an Android configuration.
#[derive(PartialEq, Eq, Structural, Clone, Copy, Debug)]
pub enum UiModeType {
    Any,
    Normal,
    Desk,
    Car,
}

impl UiModeType {
    /// The value that stands for the variant in the native interface.
    pub open spec fn spec_value(self) -> i32 {
        match self {
            UiModeType::Any => 0x00,
            UiModeType::Normal => 0x01,
            UiModeType::Desk => 0x02,
            UiModeType::Car => 0x03,
        }
    }

    /// The value that stands for the variant in the native interface.
    pub fn value(&self) -> (v: i32)
        ensures
            v == self.spec_value(),
    {
        match self {
            UiModeType::Any => 0x00,
            UiModeType::Normal => 0x01,
            UiModeType::Desk => 0x02,
            UiModeType::Car => 0x03,
        }
    }
}

/// Night mode of an Android configuration.
#[derive(PartialEq, Eq, Structural, Clone, Copy, Debug)]
pub enum UiModeNight {
    Any,
    No,
    Yes,
}

impl UiModeNight {
    /// The value that stands for the variant in the native interface.
    pub open spec fn spec_value(self) -> i32 {
        match self {
            UiModeNight::Any => 0x00,
            UiModeNight::No => 0x1,
            UiModeNight::Yes => 0x2,
        }
    }

    /// The value that stands for the variant in the native interface.
    pub fn value(&self) -> (v: i32)
        ensures
            v == self.spec_value(),
    {
        match self {
            UiModeNight::Any => 0x00,
            UiModeNight::No => 0x1,
            UiModeNight::Yes => 0x2,
        }
    }
}

/// The fields of an Android configuration, as the bits of a difference mask.
#[derive(PartialEq, Eq, Structural, Clone, Copy, Debug)]
pub enum Id {
    Mcc,
    Mnc,
    Locale,
    Touchscreen,
    Keyboard,
    KeyboardHidden,
    Navigation,
    Orientation,
    Density,
    ScreenSize,
    Version,
    ScreenLayout,
    UiMode,
}

impl Id {
    /// The value that stands for the variant in the native interface.
    pub open spec fn spec_value(self) -> i32 {
        match self {
            Id::Mcc => 0x0001,
            Id::Mnc => 0x0002,
            Id::Locale => 0x0004,
            Id::Touchscreen => 0x0008,
            Id::Keyboard => 0x0010,
            Id::KeyboardHidden => 0x0020,
            Id::Navigation => 0x0040,
            Id::Orientation => 0x0080,
            Id::Density => 0x0100,
            Id::ScreenSize => 0x0200,
            Id::Version => 0x0400,
            Id::ScreenLayout => 0x0800,
            Id::UiMode => 0x1000,
        }
    }

    /// The value that stands for the variant in the native interface.
    pub fn value(&self) -> (v: i32)
        ensures
            v == self.spec_value(),
    {
        match self {
            Id::Mcc => 0x0001,
            Id::Mnc => 0x0002,
            Id::Locale => 0x0004,
            Id::Touchscreen => 0x0008,
            Id::Keyboard => 0x0010,
            Id::KeyboardHidden => 0x0020,
            Id::Navigation => 0x0040,
            Id::Orientation => 0x0080,
            Id::Density => 0x0100,
            Id::ScreenSize => 0x0200,
            Id::Version => 0x0400,
            Id::ScreenLayout => 0x0800,
            Id::UiMode => 0x1000,
        }
    }
}

/// How an Android asset is to be read.
#[derive(PartialEq, Eq, Structural, Clone, Copy, Debug)]
#[allow(non_camel_case_types)]
pub enum AAssetMode {
    UNKNOWN,
    RANDOM,
    STREAMING,
    BUFFER,
}

impl AAssetMode {
    /// The value that stands for the variant in the native interface.
    pub open spec fn spec_value(self) -> u32 {
        match self {
            AAssetMode::UNKNOWN => 0,
            AAssetMode::RANDOM => 1,
            AAssetMode::STREAMING => 2,
            AAssetMode::BUFFER => 3,
        }
    }

    /// The value that stands for the variant in the native interface.
    pub fn value(&self) -> (v: u32)
        ensures
            v == self.spec_value(),
    {
        match self {
            AAssetMode::UNKNOWN => 0,
            AAssetMode::RANDOM => 1,
            AAssetMode::STREAMING => 2,
            AAssetMode::BUFFER => 3,
        }
    }
}

/// Priority of an Android log message.
#[derive(PartialEq, Eq, Structural, Clone, Copy, Debug)]
pub enum Priority {
    Unknown,
    Default,
    Verbose,
    Debug,
    Info,
    Warn,
    Error,
    Fatal,
    Silent,
}

impl Priority {
    /// The value that stands for the variant in the native interface.
    pub open spec fn spec_value(self) -> i32 {
        match self {
            Priority::Unknown => 0,
            Priority::Default => 1,
            Priority::Verbose => 2,
            Priority::Debug => 3,
            Priority::Info => 4,
            Priority::Warn => 5,
            Priority::Error => 6,
            Priority::Fatal => 7,
            Priority::Silent => 8,
        }
    }

    /// The value that stands for the variant in the native interface.
    pub fn value(&self) -> (v: i32)
        ensures
            v == self.spec_value(),
    {
        match self {
            Priority::Unknown => 0,
            Priority::Default => 1,
            Priority::Verbose => 2,
            Priority::Debug => 3,
            Priority::Info => 4,
            Priority::Warn => 5,
            Priority::Error => 6,
            Priority::Fatal => 7,
            Priority::Silent => 8,
        }
    }
}
} // verus!
