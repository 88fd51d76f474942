//! Which checkpoints take part in a run.

use vstd::prelude::*;
use crate::trigger::TRIGGER_COUNT;

verus! {

/// One switch per checkpoint, in the order of the checkpoint table. A
/// checkpoint that is switched off is passed over when the next checkpoint is
/// chosen.
#[derive(Clone, Copy, Debug, PartialEq, Eq)]
pub struct Settings {
    pub toggle_underworld: bool,
    pub toggle_first_ladder: bool,
    pub toggle_hell_cliffs: bool,
    pub toggle_hell_cliffs_drone: bool,
    pub toggle_the_car_race: bool,
    pub toggle_rotating_cube: bool,
    pub toggle_the_whispering_vault: bool,
    pub toggle_open_the_door: bool,
    pub toggle_the_aqua_maze: bool,
    pub toggle_the_subway_station: bool,
    pub toggle_station_drone: bool,
    pub toggle_red_elevator_to_city: bool,
    pub toggle_the_city: bool,
    pub toggle_city_crane: bool,
    pub toggle_double_crane_platforms: bool,
    pub toggle_elevator_to_buildings: bool,
    pub toggle_over_the_buildings: bool,
    pub toggle_buildings_helicopter: bool,
    pub toggle_the_warehouse: bool,
    pub toggle_the_harbor: bool,
    pub toggle_blue_railing_chariot: bool,
    pub toggle_elevator_to_stairs: bool,
    pub toggle_helicopter_to_temple: bool,
    pub toggle_the_temple: bool,
    pub toggle_elevator_to_asian_shrine: bool,
    pub toggle_the_asian_shrine: bool,
    pub toggle_wooden_horse_wagon: bool,
    pub toggle_the_deities: bool,
    pub toggle_wooden_boat: bool,
    pub toggle_zeus_lightning: bool,
    pub toggle_air_balloon_pump: bool,
    pub toggle_the_garden: bool,
    pub toggle_the_final_trials: bool,
    pub toggle_kiosk: bool,
    pub toggle_carriage: bool,
    pub toggle_the_sun: bool,
}

impl View for Settings {
    type V = Seq<bool>;

    /// The switches as a sequence, in table order.
    open spec fn view(&self) -> Seq<bool> {
        seq![
            self.toggle_underworld,
            self.toggle_first_ladder,
            self.toggle_hell_cliffs,
            self.toggle_hell_cliffs_drone,
            self.toggle_the_car_race,
            self.toggle_rotating_cube,
            self.toggle_the_whispering_vault,
            self.toggle_open_the_door,
            self.toggle_the_aqua_maze,
            self.toggle_the_subway_station,
            self.toggle_station_drone,
            self.toggle_red_elevator_to_city,
            self.toggle_the_city,
            self.toggle_city_crane,
            self.toggle_double_crane_platforms,
            self.toggle_elevator_to_buildings,
            self.toggle_over_the_buildings,
            self.toggle_buildings_helicopter,
            self.toggle_the_warehouse,
            self.toggle_the_harbor,
            self.toggle_blue_railing_chariot,
            self.toggle_elevator_to_stairs,
            self.toggle_helicopter_to_temple,
            self.toggle_the_temple,
            self.toggle_elevator_to_asian_shrine,
            self.toggle_the_asian_shrine,
            self.toggle_wooden_horse_wagon,
            self.toggle_the_deities,
            self.toggle_wooden_boat,
            self.toggle_zeus_lightning,
            self.toggle_air_balloon_pump,
            self.toggle_the_garden,
            self.toggle_the_final_trials,
            self.toggle_kiosk,
            self.toggle_carriage,
            self.toggle_the_sun,
        ]
    }
}

impl Default for Settings {
    /// Every checkpoint takes part unless it is switched off.
    fn default() -> (s: Settings)
        ensures
            s@ == Seq::new(TRIGGER_COUNT as nat, |i: int| true),
    {
        Settings::with_all(true)
    }
}

impl Settings {
    /// The view holds one switch per checkpoint, each at the index of its
    /// checkpoint.
    pub proof fn lemma_view_lists_switches(self)
        ensures
            self@.len() == TRIGGER_COUNT,
            self@[0] == self.toggle_underworld,
            self@[1] == self.toggle_first_ladder,
            self@[2] == self.toggle_hell_cliffs,
            self@[3] == self.toggle_hell_cliffs_drone,
            self@[4] == self.toggle_the_car_race,
            self@[5] == self.toggle_rotating_cube,
            self@[6] == self.toggle_the_whispering_vault,
            self@[7] == self.toggle_open_the_door,
            self@[8] == self.toggle_the_aqua_maze,
            self@[9] == self.toggle_the_subway_station,
            self@[10] == self.toggle_station_drone,
            self@[11] == self.toggle_red_elevator_to_city,
            self@[12] == self.toggle_the_city,
            self@[13] == self.toggle_city_crane,
            self@[14] == self.toggle_double_crane_platforms,
            self@[15] == self.toggle_elevator_to_buildings,
            self@[16] == self.toggle_over_the_buildings,
            self@[17] == self.toggle_buildings_helicopter,
            self@[18] == self.toggle_the_warehouse,
            self@[19] == self.toggle_the_harbor,
            self@[20] == self.toggle_blue_railing_chariot,
            self@[21] == self.toggle_elevator_to_stairs,
            self@[22] == self.toggle_helicopter_to_temple,
            self@[23] == self.toggle_the_temple,
            self@[24] == self.toggle_elevator_to_asian_shrine,
            self@[25] == self.toggle_the_asian_shrine,
            self@[26] == self.toggle_wooden_horse_wagon,
            self@[27] == self.toggle_the_deities,
            self@[28] == self.toggle_wooden_boat,
            self@[29] == self.toggle_zeus_lightning,
            self@[30] == self.toggle_air_balloon_pump,
            self@[31] == self.toggle_the_garden,
            self@[32] == self.toggle_the_final_trials,
            self@[33] == self.toggle_kiosk,
            self@[34] == self.toggle_carriage,
            self@[35] == self.toggle_the_sun,
    {
    }

    /// Settings in which every switch has the given value.
    pub fn with_all(enabled: bool) -> (s: Settings)
        ensures
            s@ == Seq::new(TRIGGER_COUNT as nat, |i: int| enabled),
    {
        let s = Settings {
            toggle_underworld: enabled,
            toggle_first_ladder: enabled,
            toggle_hell_cliffs: enabled,
            toggle_hell_cliffs_drone: enabled,
            toggle_the_car_race: enabled,
            toggle_rotating_cube: enabled,
            toggle_the_whispering_vault: enabled,
            toggle_open_the_door: enabled,
            toggle_the_aqua_maze: enabled,
            toggle_the_subway_station: enabled,
            toggle_station_drone: enabled,
            toggle_red_elevator_to_city: enabled,
            toggle_the_city: enabled,
            toggle_city_crane: enabled,
            toggle_double_crane_platforms: enabled,
            toggle_elevator_to_buildings: enabled,
            toggle_over_the_buildings: enabled,
            toggle_buildings_helicopter: enabled,
            toggle_the_warehouse: enabled,
            toggle_the_harbor: enabled,
            toggle_blue_railing_chariot: enabled,
            toggle_elevator_to_stairs: enabled,
            toggle_helicopter_to_temple: enabled,
            toggle_the_temple: enabled,
            toggle_elevator_to_asian_shrine: enabled,
            toggle_the_asian_shrine: enabled,
            toggle_wooden_horse_wagon: enabled,
            toggle_the_deities: enabled,
            toggle_wooden_boat: enabled,
            toggle_zeus_lightning: enabled,
            toggle_air_balloon_pump: enabled,
            toggle_the_garden: enabled,
            toggle_the_final_trials: enabled,
            toggle_kiosk: enabled,
            toggle_carriage: enabled,
            toggle_the_sun: enabled,
        };
        assert(s@ =~= Seq::new(TRIGGER_COUNT as nat, |i: int| enabled));
        s
    }
}

} // verus!
