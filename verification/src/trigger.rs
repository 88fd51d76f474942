//! The checkpoint table: the shapes that checkpoints are made of, the
//! checkpoints in the order in which a run passes them, and the choice of the
//! checkpoint that comes next.

use vstd::prelude::*;
use crate::geometry::Point;
use crate::geometry::Region;
use crate::geometry::above;
use crate::geometry::ball;
use crate::geometry::column;
use crate::geometry::upper_ball;
use crate::geometry::within_distance_squared;
use crate::settings::Settings;
use crate::state::State;

verus! {

/// A ball, given by its center and the square of its radius.
#[derive(Clone, Copy, Debug, PartialEq, Eq)]
pub struct SphereTrigger {
    pub position_x: i64,
    pub position_y: i64,
    pub position_z: i64,
    pub radius_squared: u64,
}

impl View for SphereTrigger {
    type V = Region;

    open spec fn view(&self) -> Region {
        Region::Ball {
            center: Point {
                x: self.position_x as int,
                y: self.position_y as int,
                z: self.position_z as int,
            },
            radius_squared: self.radius_squared as int,
        }
    }
}

impl SphereTrigger {
    pub fn new(position_x: i64, position_y: i64, position_z: i64, radius_squared: u64) -> (t:
        SphereTrigger)
        ensures
            t == (SphereTrigger { position_x, position_y, position_z, radius_squared }),
    {
        SphereTrigger { position_x, position_y, position_z, radius_squared }
    }

    /// Whether the player is inside the ball, its surface included.
    pub fn should_split(&self, state: &State) -> (b: bool)
        ensures
            b == self@.contains(state.position()),
    {
        within_distance_squared(
            self.position_x,
            self.position_y,
            self.position_z,
            state.position_x,
            state.position_y,
            state.position_z,
            self.radius_squared,
        )
    }
}

/// The upper half of a ball: the part at or above the height of its center.
#[derive(Clone, Copy, Debug, PartialEq, Eq)]
pub struct UpperSphereTrigger {
    pub position_x: i64,
    pub position_y: i64,
    pub position_z: i64,
    pub radius_squared: u64,
}

impl View for UpperSphereTrigger {
    type V = Region;

    open spec fn view(&self) -> Region {
        Region::UpperBall {
            center: Point {
                x: self.position_x as int,
                y: self.position_y as int,
                z: self.position_z as int,
            },
            radius_squared: self.radius_squared as int,
        }
    }
}

impl UpperSphereTrigger {
    pub fn new(position_x: i64, position_y: i64, position_z: i64, radius_squared: u64) -> (t:
        UpperSphereTrigger)
        ensures
            t == (UpperSphereTrigger { position_x, position_y, position_z, radius_squared }),
    {
        UpperSphereTrigger { position_x, position_y, position_z, radius_squared }
    }

    /// Whether the player is inside the ball and not below its center.
    pub fn should_split(&self, state: &State) -> (b: bool)
        ensures
            b == self@.contains(state.position()),
    {
        within_distance_squared(
            self.position_x,
            self.position_y,
            self.position_z,
            state.position_x,
            state.position_y,
            state.position_z,
            self.radius_squared,
        ) && self.position_z <= state.position_z
    }
}

/// A rectangle on the ground, reaching from `(position_x_1, position_y_1)` to
/// `(position_x_2, position_y_2)`, at any height.
#[derive(Clone, Copy, Debug, PartialEq, Eq)]
pub struct BoxTrigger {
    pub position_x_1: i64,
    pub position_y_1: i64,
    pub position_x_2: i64,
    pub position_y_2: i64,
}

impl View for BoxTrigger {
    type V = Region;

    open spec fn view(&self) -> Region {
        Region::Column {
            x_min: self.position_x_1 as int,
            x_max: self.position_x_2 as int,
            y_min: self.position_y_1 as int,
            y_max: self.position_y_2 as int,
        }
    }
}

impl BoxTrigger {
    /// The two ends of the range of `x` come first, then those of `y`.
    pub fn new(position_x_1: i64, position_x_2: i64, position_y_1: i64, position_y_2: i64) -> (t:
        BoxTrigger)
        ensures
            t == (BoxTrigger { position_x_1, position_y_1, position_x_2, position_y_2 }),
    {
        BoxTrigger { position_x_1, position_y_1, position_x_2, position_y_2 }
    }

    /// Whether the player is over the rectangle, its border included.
    pub fn should_split(&self, state: &State) -> (b: bool)
        ensures
            b == self@.contains(state.position()),
    {
        state.position_x >= self.position_x_1 && state.position_x <= self.position_x_2
            && state.position_y >= self.position_y_1 && state.position_y <= self.position_y_2
    }
}

/// A height that the player has to reach.
#[derive(Clone, Copy, Debug, PartialEq, Eq)]
pub struct HeightTrigger {
    pub position_z: i64,
}

impl View for HeightTrigger {
    type V = Region;

    open spec fn view(&self) -> Region {
        Region::Above { height: self.position_z as int }
    }
}

impl HeightTrigger {
    pub fn new(position_z: i64) -> (t: HeightTrigger)
        ensures
            t == (HeightTrigger { position_z }),
    {
        HeightTrigger { position_z }
    }

    /// Whether the player is at or above the height.
    pub fn should_split(&self, state: &State) -> (b: bool)
        ensures
            b == self@.contains(state.position()),
    {
        state.position_z >= self.position_z
    }
}

/// The checkpoints, in the order in which a run passes them.
#[derive(Clone, Copy, Debug, PartialEq, Eq, Structural)]
pub enum Triggers {
    Underworld,
    FirstLadder,
    HellCliffs,
    HellCliffsDrone,
    TheCarRace,
    RotatingCube,
    TheWhisperingVault,
    OpenTheDoor,
    TheAquaMaze,
    TheSubwayStation,
    StationDrone,
    RedElevatortoCity,
    TheCity,
    CityCrane,
    DoubleCranePlatforms,
    ElevatortoBuildings,
    OverTheBuildings,
    BuildingsHelicopter,
    TheWarehouse,
    TheHarbor,
    BlueRailingChariot,
    Elevatortostairs,
    HelicoptertoTemple,
    TheTemple,
    ElevatortoAsianShrine,
    TheAsianShrine,
    WoodenHorseWagon,
    TheDeities,
    WoodenBoat,
    ZeusLightning,
    AirBalloonPump,
    TheGarden,
    TheFinalTrials,
    Kiosk,
    Carriage,
    TheSun,
}

/// The number of checkpoints in the table.
pub const TRIGGER_COUNT: usize = 36;

/// The table index of the last checkpoint.
pub open spec fn last_index() -> int {
    TRIGGER_COUNT - 1
}

/// The index of the first switch at or after `start` that is on, or the last
/// index if every switch before the last is off. The last switch itself is not
/// looked at: the last checkpoint ends the search whether it is on or off.
pub open spec fn first_enabled_from(flags: Seq<bool>, start: int) -> int
    decreases last_index() - start,
{
    if start >= last_index() {
        last_index()
    } else if flags[start] {
        start
    } else {
        first_enabled_from(flags, start + 1)
    }
}

impl Triggers {
    /// The checkpoint table.
    pub open spec fn table() -> Seq<Triggers> {
        seq![
            Triggers::Underworld,
            Triggers::FirstLadder,
            Triggers::HellCliffs,
            Triggers::HellCliffsDrone,
            Triggers::TheCarRace,
            Triggers::RotatingCube,
            Triggers::TheWhisperingVault,
            Triggers::OpenTheDoor,
            Triggers::TheAquaMaze,
            Triggers::TheSubwayStation,
            Triggers::StationDrone,
            Triggers::RedElevatortoCity,
            Triggers::TheCity,
            Triggers::CityCrane,
            Triggers::DoubleCranePlatforms,
            Triggers::ElevatortoBuildings,
            Triggers::OverTheBuildings,
            Triggers::BuildingsHelicopter,
            Triggers::TheWarehouse,
            Triggers::TheHarbor,
            Triggers::BlueRailingChariot,
            Triggers::Elevatortostairs,
            Triggers::HelicoptertoTemple,
            Triggers::TheTemple,
            Triggers::ElevatortoAsianShrine,
            Triggers::TheAsianShrine,
            Triggers::WoodenHorseWagon,
            Triggers::TheDeities,
            Triggers::WoodenBoat,
            Triggers::ZeusLightning,
            Triggers::AirBalloonPump,
            Triggers::TheGarden,
            Triggers::TheFinalTrials,
            Triggers::Kiosk,
            Triggers::Carriage,
            Triggers::TheSun,
        ]
    }

    /// The place of the checkpoint in the table, counted from zero.
    pub open spec fn index(self) -> int {
        match self {
            Triggers::Underworld => 0,
            Triggers::FirstLadder => 1,
            Triggers::HellCliffs => 2,
            Triggers::HellCliffsDrone => 3,
            Triggers::TheCarRace => 4,
            Triggers::RotatingCube => 5,
            Triggers::TheWhisperingVault => 6,
            Triggers::OpenTheDoor => 7,
            Triggers::TheAquaMaze => 8,
            Triggers::TheSubwayStation => 9,
            Triggers::StationDrone => 10,
            Triggers::RedElevatortoCity => 11,
            Triggers::TheCity => 12,
            Triggers::CityCrane => 13,
            Triggers::DoubleCranePlatforms => 14,
            Triggers::ElevatortoBuildings => 15,
            Triggers::OverTheBuildings => 16,
            Triggers::BuildingsHelicopter => 17,
            Triggers::TheWarehouse => 18,
            Triggers::TheHarbor => 19,
            Triggers::BlueRailingChariot => 20,
            Triggers::Elevatortostairs => 21,
            Triggers::HelicoptertoTemple => 22,
            Triggers::TheTemple => 23,
            Triggers::ElevatortoAsianShrine => 24,
            Triggers::TheAsianShrine => 25,
            Triggers::WoodenHorseWagon => 26,
            Triggers::TheDeities => 27,
            Triggers::WoodenBoat => 28,
            Triggers::ZeusLightning => 29,
            Triggers::AirBalloonPump => 30,
            Triggers::TheGarden => 31,
            Triggers::TheFinalTrials => 32,
            Triggers::Kiosk => 33,
            Triggers::Carriage => 34,
            Triggers::TheSun => 35,
        }
    }

    /// The checkpoint that comes right after this one; the last checkpoint
    /// comes after itself.
    pub open spec fn successor(self) -> Triggers {
        if self.index() < last_index() {
            Triggers::table()[self.index() + 1]
        } else {
            self
        }
    }

    /// Where the checkpoint is reached. Coordinates and radii count
    /// thousandths of a world unit.
    pub open spec fn region(self) -> Region {
        match self {
            Triggers::Underworld => ball(48_169_700, -6_670_380, 10_415_320, 1_600_000),
            Triggers::FirstLadder => column(57_607_000, 57_647_000, -4_686_000, -4_602_000),
            Triggers::HellCliffs => ball(58_518_040, -5_896_680, 22_762_730, 600_000),
            Triggers::HellCliffsDrone => ball(63_361_970, -7_714_820, 28_700_000, 150_000),
            Triggers::TheCarRace => ball(60_736_000, -5_806_000, 34_473_000, 2_000_000),
            Triggers::RotatingCube => ball(57_840_650, -4_092_850, 40_061_930, 550_000),
            Triggers::TheWhisperingVault => above(47_380_000),
            Triggers::OpenTheDoor => ball(70_099_820, -12_091_440, 54_309_280, 1_000_000),
            Triggers::TheAquaMaze => ball(56_175_000, -9_616_000, 61_161_000, 1_900_000),
            Triggers::TheSubwayStation => ball(61_164_220, -16_430_150, 66_112_400, 875_000),
            Triggers::StationDrone => ball(43_285_670, -19_387_020, 71_659_890, 85_000),
            Triggers::RedElevatortoCity => ball(55_934_050, -7_474_580, 85_888_980, 360_000),
            Triggers::TheCity => above(114_310_000),
            Triggers::CityCrane => ball(64_600_000, -5_950_000, 119_450_000, 2_340_000),
            Triggers::DoubleCranePlatforms => ball(54_500_000, -9_000_000, 125_818_000, 2_100_000),
            Triggers::ElevatortoBuildings => ball(59_656_000, -7_845_000, 133_400_000, 1_050_000),
            Triggers::OverTheBuildings => above(139_850_000),
            Triggers::BuildingsHelicopter => ball(61_241_000, -7_060_000, 149_050_000, 150_000),
            Triggers::TheWarehouse => above(155_996_000),
            Triggers::TheHarbor => upper_ball(58_833_190, -10_168_210, 167_476_000, 4_100_000),
            Triggers::BlueRailingChariot => ball(55_267_000, -9_424_000, 175_450_000, 2_200_000),
            Triggers::Elevatortostairs => ball(60_015_000, -5_540_000, 180_200_000, 1_550_000),
            Triggers::HelicoptertoTemple => ball(63_676_359, -12_937_550, 203_690_000, 150_000),
            Triggers::TheTemple => above(209_230_000),
            Triggers::ElevatortoAsianShrine => ball(60_844_000, -13_114_000, 233_000_000, 1_800_000),
            Triggers::TheAsianShrine => above(244_140_000),
            Triggers::WoodenHorseWagon => ball(57_636_000, -9_231_000, 270_700_000, 1_300_000),
            Triggers::TheDeities => ball(40_703_730, -1_902_680, 278_480_620, 2_270_000),
            Triggers::WoodenBoat => ball(52_432_000, -1_512_000, 284_710_000, 1_600_000),
            Triggers::ZeusLightning => ball(81_930_000, -23_160_000, 301_710_000, 610_000),
            Triggers::AirBalloonPump => ball(45_515_000, -11_171_000, 307_250_000, 100_000),
            Triggers::TheGarden => ball(47_610_460, -11_083_540, 334_514_260, 4_200_000),
            Triggers::TheFinalTrials => ball(56_907_000, -32_509_000, 337_997_000, 940_000),
            Triggers::Kiosk => ball(56_351_000, -23_282_000, 351_400_000, 650_000),
            Triggers::Carriage => ball(60_435_000, -27_560_000, 357_470_000, 450_000),
            Triggers::TheSun => ball(89_000_000, -4_500_000, 373_000_000, 8_500_000),
        }
    }

    /// Whether the checkpoint's switch is on.
    pub open spec fn enabled_in(self, flags: Seq<bool>) -> bool {
        flags[self.index()]
    }

    /// The checkpoint armed when a run starts: the first one that is switched
    /// on, or the last one if none before it is.
    pub open spec fn first_enabled(flags: Seq<bool>) -> Triggers {
        Triggers::table()[first_enabled_from(flags, 0)]
    }

    /// The checkpoint armed after this one was reached: the first one after
    /// it that is switched on, or the last one if none before it is.
    pub open spec fn next_enabled(self, flags: Seq<bool>) -> Triggers {
        Triggers::table()[first_enabled_from(flags, self.successor().index())]
    }

    /// Whether the player has reached the checkpoint.
    pub fn should_split(&self, state: &State) -> (b: bool)
        ensures
            b == self.region().contains(state.position()),
    {
        match self {
            Triggers::Underworld => SphereTrigger::new(
                48_169_700,
                -6_670_380,
                10_415_320,
                1_600_000 * 1_600_000,
            ).should_split(state),
            Triggers::FirstLadder => BoxTrigger::new(57_607_000, 57_647_000, -4_686_000, -4_602_000).should_split(
                state,
            ),
            Triggers::HellCliffs => SphereTrigger::new(
                58_518_040,
                -5_896_680,
                22_762_730,
                600_000 * 600_000,
            ).should_split(state),
            Triggers::HellCliffsDrone => SphereTrigger::new(
                63_361_970,
                -7_714_820,
                28_700_000,
                150_000 * 150_000,
            ).should_split(state),
            Triggers::TheCarRace => SphereTrigger::new(
                60_736_000,
                -5_806_000,
                34_473_000,
                2_000_000 * 2_000_000,
            ).should_split(state),
            Triggers::RotatingCube => SphereTrigger::new(
                57_840_650,
                -4_092_850,
                40_061_930,
                550_000 * 550_000,
            ).should_split(state),
            Triggers::TheWhisperingVault => HeightTrigger::new(47_380_000).should_split(state),
            Triggers::OpenTheDoor => SphereTrigger::new(
                70_099_820,
                -12_091_440,
                54_309_280,
                1_000_000 * 1_000_000,
            ).should_split(state),
            Triggers::TheAquaMaze => SphereTrigger::new(
                56_175_000,
                -9_616_000,
                61_161_000,
                1_900_000 * 1_900_000,
            ).should_split(state),
            Triggers::TheSubwayStation => SphereTrigger::new(
                61_164_220,
                -16_430_150,
                66_112_400,
                875_000 * 875_000,
            ).should_split(state),
            Triggers::StationDrone => SphereTrigger::new(
                43_285_670,
                -19_387_020,
                71_659_890,
                85_000 * 85_000,
            ).should_split(state),
            Triggers::RedElevatortoCity => SphereTrigger::new(
                55_934_050,
                -7_474_580,
                85_888_980,
                360_000 * 360_000,
            ).should_split(state),
            Triggers::TheCity => HeightTrigger::new(114_310_000).should_split(state),
            Triggers::CityCrane => SphereTrigger::new(
                64_600_000,
                -5_950_000,
                119_450_000,
                2_340_000 * 2_340_000,
            ).should_split(state),
            Triggers::DoubleCranePlatforms => SphereTrigger::new(
                54_500_000,
                -9_000_000,
                125_818_000,
                2_100_000 * 2_100_000,
            ).should_split(state),
            Triggers::ElevatortoBuildings => SphereTrigger::new(
                59_656_000,
                -7_845_000,
                133_400_000,
                1_050_000 * 1_050_000,
            ).should_split(state),
            Triggers::OverTheBuildings => HeightTrigger::new(139_850_000).should_split(state),
            Triggers::BuildingsHelicopter => SphereTrigger::new(
                61_241_000,
                -7_060_000,
                149_050_000,
                150_000 * 150_000,
            ).should_split(state),
            Triggers::TheWarehouse => HeightTrigger::new(155_996_000).should_split(state),
            Triggers::TheHarbor => UpperSphereTrigger::new(
                58_833_190,
                -10_168_210,
                167_476_000,
                4_100_000 * 4_100_000,
            ).should_split(state),
            Triggers::BlueRailingChariot => SphereTrigger::new(
                55_267_000,
                -9_424_000,
                175_450_000,
                2_200_000 * 2_200_000,
            ).should_split(state),
            Triggers::Elevatortostairs => SphereTrigger::new(
                60_015_000,
                -5_540_000,
                180_200_000,
                1_550_000 * 1_550_000,
            ).should_split(state),
            Triggers::HelicoptertoTemple => SphereTrigger::new(
                63_676_359,
                -12_937_550,
                203_690_000,
                150_000 * 150_000,
            ).should_split(state),
            Triggers::TheTemple => HeightTrigger::new(209_230_000).should_split(state),
            Triggers::ElevatortoAsianShrine => SphereTrigger::new(
                60_844_000,
                -13_114_000,
                233_000_000,
                1_800_000 * 1_800_000,
            ).should_split(state),
            Triggers::TheAsianShrine => HeightTrigger::new(244_140_000).should_split(state),
            Triggers::WoodenHorseWagon => SphereTrigger::new(
                57_636_000,
                -9_231_000,
                270_700_000,
                1_300_000 * 1_300_000,
            ).should_split(state),
            Triggers::TheDeities => SphereTrigger::new(
                40_703_730,
                -1_902_680,
                278_480_620,
                2_270_000 * 2_270_000,
            ).should_split(state),
            Triggers::WoodenBoat => SphereTrigger::new(
                52_432_000,
                -1_512_000,
                284_710_000,
                1_600_000 * 1_600_000,
            ).should_split(state),
            Triggers::ZeusLightning => SphereTrigger::new(
                81_930_000,
                -23_160_000,
                301_710_000,
                610_000 * 610_000,
            ).should_split(state),
            Triggers::AirBalloonPump => SphereTrigger::new(
                45_515_000,
                -11_171_000,
                307_250_000,
                100_000 * 100_000,
            ).should_split(state),
            Triggers::TheGarden => SphereTrigger::new(
                47_610_460,
                -11_083_540,
                334_514_260,
                4_200_000 * 4_200_000,
            ).should_split(state),
            Triggers::TheFinalTrials => SphereTrigger::new(
                56_907_000,
                -32_509_000,
                337_997_000,
                940_000 * 940_000,
            ).should_split(state),
            Triggers::Kiosk => SphereTrigger::new(
                56_351_000,
                -23_282_000,
                351_400_000,
                650_000 * 650_000,
            ).should_split(state),
            Triggers::Carriage => SphereTrigger::new(
                60_435_000,
                -27_560_000,
                357_470_000,
                450_000 * 450_000,
            ).should_split(state),
            Triggers::TheSun => SphereTrigger::new(
                89_000_000,
                -4_500_000,
                373_000_000,
                8_500_000 * 8_500_000,
            ).should_split(state),
        }
    }

    /// The checkpoint that follows this one in the table. The last checkpoint
    /// follows itself.
    pub fn next_trigger_raw(&self) -> (next: Triggers)
        ensures
            next == self.successor(),
            next.index() == if self.index() < last_index() {
                self.index() + 1
            } else {
                self.index()
            },
    {
        match self {
            Triggers::Underworld => Triggers::FirstLadder,
            Triggers::FirstLadder => Triggers::HellCliffs,
            Triggers::HellCliffs => Triggers::HellCliffsDrone,
            Triggers::HellCliffsDrone => Triggers::TheCarRace,
            Triggers::TheCarRace => Triggers::RotatingCube,
            Triggers::RotatingCube => Triggers::TheWhisperingVault,
            Triggers::TheWhisperingVault => Triggers::OpenTheDoor,
            Triggers::OpenTheDoor => Triggers::TheAquaMaze,
            Triggers::TheAquaMaze => Triggers::TheSubwayStation,
            Triggers::TheSubwayStation => Triggers::StationDrone,
            Triggers::StationDrone => Triggers::RedElevatortoCity,
            Triggers::RedElevatortoCity => Triggers::TheCity,
            Triggers::TheCity => Triggers::CityCrane,
            Triggers::CityCrane => Triggers::DoubleCranePlatforms,
            Triggers::DoubleCranePlatforms => Triggers::ElevatortoBuildings,
            Triggers::ElevatortoBuildings => Triggers::OverTheBuildings,
            Triggers::OverTheBuildings => Triggers::BuildingsHelicopter,
            Triggers::BuildingsHelicopter => Triggers::TheWarehouse,
            Triggers::TheWarehouse => Triggers::TheHarbor,
            Triggers::TheHarbor => Triggers::BlueRailingChariot,
            Triggers::BlueRailingChariot => Triggers::Elevatortostairs,
            Triggers::Elevatortostairs => Triggers::HelicoptertoTemple,
            Triggers::HelicoptertoTemple => Triggers::TheTemple,
            Triggers::TheTemple => Triggers::ElevatortoAsianShrine,
            Triggers::ElevatortoAsianShrine => Triggers::TheAsianShrine,
            Triggers::TheAsianShrine => Triggers::WoodenHorseWagon,
            Triggers::WoodenHorseWagon => Triggers::TheDeities,
            Triggers::TheDeities => Triggers::WoodenBoat,
            Triggers::WoodenBoat => Triggers::ZeusLightning,
            Triggers::ZeusLightning => Triggers::AirBalloonPump,
            Triggers::AirBalloonPump => Triggers::TheGarden,
            Triggers::TheGarden => Triggers::TheFinalTrials,
            Triggers::TheFinalTrials => Triggers::Kiosk,
            Triggers::Kiosk => Triggers::Carriage,
            Triggers::Carriage => Triggers::TheSun,
            Triggers::TheSun => Triggers::TheSun,
        }
    }

    /// Whether this is the last checkpoint of the table.
    fn is_last(&self) -> (b: bool)
        ensures
            b == (self.index() == last_index()),
    {
        matches!(self, Triggers::TheSun)
    }

    /// Walks the table from `start` until a checkpoint is switched on or the
    /// last checkpoint is reached.
    fn first_enabled_at_or_after(start: Triggers, settings: &Settings) -> (found: Triggers)
        ensures
            found.index() == first_enabled_from(settings@, start.index()),
    {
        let mut trigger = start;
        while !trigger.is_last() && !trigger.is_enabled(settings)
            invariant
                first_enabled_from(settings@, trigger.index()) == first_enabled_from(
                    settings@,
                    start.index(),
                ),
            decreases last_index() - trigger.index(),
        {
            trigger = trigger.next_trigger_raw();
        }
        trigger
    }

    /// The checkpoint to arm once this one was reached: the first one after
    /// it that is switched on. The last checkpoint ends the search whether it
    /// is on or off, and comes after itself.
    pub fn next_trigger(&self, settings: &Settings) -> (next: Triggers)
        ensures
            next == self.next_enabled(settings@),
            self.successor().index() <= next.index() <= last_index(),
            forall|i: int| self.successor().index() <= i < next.index() ==> !settings@[i],
            next.index() < last_index() ==> next.enabled_in(settings@),
    {
        let next = Triggers::first_enabled_at_or_after(self.next_trigger_raw(), settings);
        proof {
            lemma_first_enabled_from(settings@, self.successor().index());
            lemma_table_holds_each_once(next);
        }
        next
    }

    /// The checkpoint to arm when a run starts: the first one that is switched
    /// on. The last checkpoint ends the search whether it is on or off.
    pub fn first_trigger(settings: &Settings) -> (first: Triggers)
        ensures
            first == Triggers::first_enabled(settings@),
            forall|i: int| 0 <= i < first.index() ==> !settings@[i],
            first.index() < last_index() ==> first.enabled_in(settings@),
    {
        let first = Triggers::first_enabled_at_or_after(Triggers::Underworld, settings);
        proof {
            lemma_first_enabled_from(settings@, 0);
            lemma_table_holds_each_once(first);
        }
        first
    }

    /// Whether the checkpoint is switched on in the given settings.
    pub fn is_enabled(&self, settings: &Settings) -> (b: bool)
        ensures
            b == self.enabled_in(settings@),
    {
        proof {
            settings.lemma_view_lists_switches();
        }
        match self {
            Triggers::Underworld => settings.toggle_underworld,
            Triggers::FirstLadder => settings.toggle_first_ladder,
            Triggers::HellCliffs => settings.toggle_hell_cliffs,
            Triggers::HellCliffsDrone => settings.toggle_hell_cliffs_drone,
            Triggers::TheCarRace => settings.toggle_the_car_race,
            Triggers::RotatingCube => settings.toggle_rotating_cube,
            Triggers::TheWhisperingVault => settings.toggle_the_whispering_vault,
            Triggers::OpenTheDoor => settings.toggle_open_the_door,
            Triggers::TheAquaMaze => settings.toggle_the_aqua_maze,
            Triggers::TheSubwayStation => settings.toggle_the_subway_station,
            Triggers::StationDrone => settings.toggle_station_drone,
            Triggers::RedElevatortoCity => settings.toggle_red_elevator_to_city,
            Triggers::TheCity => settings.toggle_the_city,
            Triggers::CityCrane => settings.toggle_city_crane,
            Triggers::DoubleCranePlatforms => settings.toggle_double_crane_platforms,
            Triggers::ElevatortoBuildings => settings.toggle_elevator_to_buildings,
            Triggers::OverTheBuildings => settings.toggle_over_the_buildings,
            Triggers::BuildingsHelicopter => settings.toggle_buildings_helicopter,
            Triggers::TheWarehouse => settings.toggle_the_warehouse,
            Triggers::TheHarbor => settings.toggle_the_harbor,
            Triggers::BlueRailingChariot => settings.toggle_blue_railing_chariot,
            Triggers::Elevatortostairs => settings.toggle_elevator_to_stairs,
            Triggers::HelicoptertoTemple => settings.toggle_helicopter_to_temple,
            Triggers::TheTemple => settings.toggle_the_temple,
            Triggers::ElevatortoAsianShrine => settings.toggle_elevator_to_asian_shrine,
            Triggers::TheAsianShrine => settings.toggle_the_asian_shrine,
            Triggers::WoodenHorseWagon => settings.toggle_wooden_horse_wagon,
            Triggers::TheDeities => settings.toggle_the_deities,
            Triggers::WoodenBoat => settings.toggle_wooden_boat,
            Triggers::ZeusLightning => settings.toggle_zeus_lightning,
            Triggers::AirBalloonPump => settings.toggle_air_balloon_pump,
            Triggers::TheGarden => settings.toggle_the_garden,
            Triggers::TheFinalTrials => settings.toggle_the_final_trials,
            Triggers::Kiosk => settings.toggle_kiosk,
            Triggers::Carriage => settings.toggle_carriage,
            Triggers::TheSun => settings.toggle_the_sun,
        }
    }
}

/// Every checkpoint stands in the table exactly once, at its index.
pub proof fn lemma_table_holds_each_once(c: Triggers)
    ensures
        Triggers::table().len() == TRIGGER_COUNT,
        0 <= c.index() <= last_index(),
        Triggers::table()[c.index()] == c,
        forall|i: int| 0 <= i < TRIGGER_COUNT && Triggers::table()[i] == c ==> i == c.index(),
{
    assert forall|i: int| 0 <= i < TRIGGER_COUNT implies (#[trigger] Triggers::table()[i]).index()
        == i by {}
}

/// Every checkpoint but the last is followed by the entry that stands right
/// after it in the table, and no other checkpoint stands there. The last
/// checkpoint, and only the last, is followed by itself.
pub proof fn lemma_successor_is_next_entry(c: Triggers)
    ensures
        c.index() < last_index() ==> c.successor() == Triggers::table()[c.index() + 1],
        c.index() < last_index() ==> c.successor().index() == c.index() + 1,
        forall|d: Triggers| d.index() == c.index() + 1 ==> d == c.successor(),
        c.successor() == c <==> c == Triggers::TheSun,
        c == Triggers::TheSun <==> c.index() == last_index(),
{
    lemma_table_holds_each_once(c);
    lemma_table_holds_each_once(c.successor());
    assert forall|d: Triggers| d.index() == c.index() + 1 implies d == c.successor() by {
        lemma_table_holds_each_once(d);
    }
}

/// If a switch at or after `start` is on, the search ends on a switch that is
/// on.
pub proof fn lemma_search_finds_enabled(flags: Seq<bool>, start: int, witness: int)
    requires
        0 <= start <= witness <= last_index(),
        flags[witness],
    ensures
        flags[first_enabled_from(flags, start)],
{
    lemma_first_enabled_from(flags, start);
}

/// If any checkpoint is switched on, the checkpoint armed at the start of a
/// run is switched on.
pub proof fn lemma_first_enabled_is_enabled(flags: Seq<bool>, witness: Triggers)
    requires
        witness.enabled_in(flags),
    ensures
        Triggers::first_enabled(flags).enabled_in(flags),
{
    lemma_table_holds_each_once(witness);
    lemma_search_finds_enabled(flags, 0, witness.index());
    lemma_first_enabled_from(flags, 0);
    lemma_entry_has_its_index(first_enabled_from(flags, 0));
}

/// The checkpoint armed after a split is switched on, or it is the last one.
/// It is switched on whenever a checkpoint after the one that was reached is.
pub proof fn lemma_next_enabled_is_enabled_or_last(c: Triggers, flags: Seq<bool>)
    ensures
        c.next_enabled(flags).enabled_in(flags) || c.next_enabled(flags) == Triggers::TheSun,
        forall|later: Triggers|
            c.index() < later.index() && later.enabled_in(flags) ==> c.next_enabled(
                flags,
            ).enabled_in(flags),
{
    let start = c.successor().index();
    lemma_table_holds_each_once(c);
    lemma_table_holds_each_once(c.successor());
    lemma_first_enabled_from(flags, start);
    lemma_entry_has_its_index(first_enabled_from(flags, start));
    assert forall|later: Triggers|
        c.index() < later.index() && later.enabled_in(flags) implies c.next_enabled(
        flags,
    ).enabled_in(flags) by {
        lemma_table_holds_each_once(later);
        lemma_search_finds_enabled(flags, start, later.index());
    }
}

/// The entry at an index of the table has that index.
pub proof fn lemma_entry_has_its_index(i: int)
    requires
        0 <= i <= last_index(),
    ensures
        Triggers::table()[i].index() == i,
{
}

/// The search starts at `start`, passes only switches that are off, and ends
/// on a switch that is on or on the last index.
pub proof fn lemma_first_enabled_from(flags: Seq<bool>, start: int)
    requires
        0 <= start <= last_index(),
    ensures
        start <= first_enabled_from(flags, start) <= last_index(),
        forall|i: int| start <= i < first_enabled_from(flags, start) ==> !flags[i],
        first_enabled_from(flags, start) < last_index() ==> flags[first_enabled_from(flags, start)],
    decreases last_index() - start,
{
    if start < last_index() && !flags[start] {
        lemma_first_enabled_from(flags, start + 1);
    }
}

} // verus!
