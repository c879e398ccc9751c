//! The fixed capability set and identity the virtual controller advertises:
//! ten digital buttons, four signed stick axes, two trigger axes and the two
//! hat axes of the D-pad, under the vendor/product/version and name of a
//! well-known commercial controller so consumers treat it as that hardware.

use vstd::prelude::*;
use crate::emission::ABS_HAT0X;
use crate::emission::ABS_HAT0Y;
use crate::emission::ABS_RX;
use crate::emission::ABS_RY;
use crate::emission::ABS_RZ;
use crate::emission::ABS_X;
use crate::emission::ABS_Y;
use crate::emission::ABS_Z;
use crate::emission::BTN_EAST;
use crate::emission::BTN_NORTH;
use crate::emission::BTN_SELECT;
use crate::emission::BTN_SOUTH;
use crate::emission::BTN_START;
use crate::emission::BTN_THUMBL;
use crate::emission::BTN_THUMBR;
use crate::emission::BTN_TL;
use crate::emission::BTN_TR;
use crate::emission::BTN_WEST;
use crate::emission::STICK_MAX;
use crate::emission::STICK_MIN;
use crate::emission::TRIGGER_MAX;

verus! {

/// Vendor identifier advertised by the virtual device.
pub const VENDOR_ID: u16 = 0x045e;

/// Product identifier advertised by the virtual device.
pub const PRODUCT_ID: u16 = 0x028e;

/// Version number advertised by the virtual device.
pub const DEVICE_VERSION: u16 = 0x0110;

/// Declared shape of one absolute axis: its code, range and filtering
/// parameters, with the rest value 0.
#[derive(Debug, Clone, Copy, PartialEq, Eq, Structural)]
pub struct AxisSetup {
    pub code: u16,
    pub min: i32,
    pub max: i32,
    pub fuzz: i32,
    pub flat: i32,
}

/// The ten button codes the device declares, in declaration order.
pub open spec fn spec_button_codes() -> Seq<u16> {
    seq![
        BTN_SOUTH,
        BTN_EAST,
        BTN_WEST,
        BTN_NORTH,
        BTN_TL,
        BTN_TR,
        BTN_THUMBL,
        BTN_THUMBR,
        BTN_START,
        BTN_SELECT,
    ]
}

/// The eight absolute axes the device declares, in declaration order: the
/// four stick axes with the full signed 16-bit range, the two trigger axes,
/// and the two hat axes of the D-pad.
pub open spec fn spec_axis_setups() -> Seq<AxisSetup> {
    seq![
        AxisSetup { code: ABS_X, min: STICK_MIN, max: STICK_MAX, fuzz: 16, flat: 128 },
        AxisSetup { code: ABS_Y, min: STICK_MIN, max: STICK_MAX, fuzz: 16, flat: 128 },
        AxisSetup { code: ABS_RX, min: STICK_MIN, max: STICK_MAX, fuzz: 16, flat: 128 },
        AxisSetup { code: ABS_RY, min: STICK_MIN, max: STICK_MAX, fuzz: 16, flat: 128 },
        AxisSetup { code: ABS_Z, min: 0, max: TRIGGER_MAX, fuzz: 0, flat: 0 },
        AxisSetup { code: ABS_RZ, min: 0, max: TRIGGER_MAX, fuzz: 0, flat: 0 },
        AxisSetup { code: ABS_HAT0X, min: -1i32, max: 1i32, fuzz: 0, flat: 0 },
        AxisSetup { code: ABS_HAT0Y, min: -1i32, max: 1i32, fuzz: 0, flat: 0 },
    ]
}

/// Device name advertised by the virtual device.
pub fn device_name() -> (s: &'static str)
    ensures
        s@ == "Microsoft X-Box 360 pad"@,
{
    "Microsoft X-Box 360 pad"
}

/// The button codes to declare at device creation.
pub fn button_codes() -> (codes: Vec<u16>)
    ensures
        codes@ == spec_button_codes(),
{
    let mut codes: Vec<u16> = Vec::new();
    codes.push(BTN_SOUTH);
    codes.push(BTN_EAST);
    codes.push(BTN_WEST);
    codes.push(BTN_NORTH);
    codes.push(BTN_TL);
    codes.push(BTN_TR);
    codes.push(BTN_THUMBL);
    codes.push(BTN_THUMBR);
    codes.push(BTN_START);
    codes.push(BTN_SELECT);
    proof {
        assert(codes@ =~= spec_button_codes());
    }
    codes
}

/// The absolute-axis declarations to install at device creation.
pub fn axis_setups() -> (axes: Vec<AxisSetup>)
    ensures
        axes@ == spec_axis_setups(),
{
    let mut axes: Vec<AxisSetup> = Vec::new();
    axes.push(AxisSetup { code: ABS_X, min: STICK_MIN, max: STICK_MAX, fuzz: 16, flat: 128 });
    axes.push(AxisSetup { code: ABS_Y, min: STICK_MIN, max: STICK_MAX, fuzz: 16, flat: 128 });
    axes.push(AxisSetup { code: ABS_RX, min: STICK_MIN, max: STICK_MAX, fuzz: 16, flat: 128 });
    axes.push(AxisSetup { code: ABS_RY, min: STICK_MIN, max: STICK_MAX, fuzz: 16, flat: 128 });
    axes.push(AxisSetup { code: ABS_Z, min: 0, max: TRIGGER_MAX, fuzz: 0, flat: 0 });
    axes.push(AxisSetup { code: ABS_RZ, min: 0, max: TRIGGER_MAX, fuzz: 0, flat: 0 });
    axes.push(AxisSetup { code: ABS_HAT0X, min: -1i32, max: 1i32, fuzz: 0, flat: 0 });
    axes.push(AxisSetup { code: ABS_HAT0Y, min: -1i32, max: 1i32, fuzz: 0, flat: 0 });
    proof {
        assert(axes@ =~= spec_axis_setups());
    }
    axes
}

/// Every axis an action can drive is declared, and the value the action
/// emits on either edge lies within that axis's declared range.
pub proof fn lemma_emissions_within_declared_ranges(b: crate::actions::XboxButton, edge: i32)
    requires
        edge == 0 || edge == 1,
        !crate::emission::is_button(b),
    ensures
        exists|i: int|
            {
                &&& 0 <= i < spec_axis_setups().len()
                &&& (#[trigger] spec_axis_setups()[i]).code == crate::emission::target_code(b)
                &&& spec_axis_setups()[i].min <= crate::emission::event_value(b, edge)
                    <= spec_axis_setups()[i].max
            },
{
    let code = crate::emission::target_code(b);
    if code == ABS_X {
        assert(spec_axis_setups()[0].code == code);
    } else if code == ABS_Y {
        assert(spec_axis_setups()[1].code == code);
    } else if code == ABS_RX {
        assert(spec_axis_setups()[2].code == code);
    } else if code == ABS_RY {
        assert(spec_axis_setups()[3].code == code);
    } else if code == ABS_Z {
        assert(spec_axis_setups()[4].code == code);
    } else if code == ABS_RZ {
        assert(spec_axis_setups()[5].code == code);
    } else if code == ABS_HAT0X {
        assert(spec_axis_setups()[6].code == code);
    } else {
        assert(spec_axis_setups()[7].code == code);
    }
}

} // verus!
