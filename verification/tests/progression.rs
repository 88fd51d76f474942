use chained_autosplit::settings::Settings;
use chained_autosplit::trigger::Triggers;
use chained_autosplit::trigger::TRIGGER_COUNT;

fn table_in_order() -> Vec<Triggers> {
    vec![
        Triggers::Underworld,
        Triggers::FirstLadder,
        Triggers::HellCliffs,
        Triggers::HellCliffsDrone,
        Triggers::TheCarRace,
        Triggers::RotatingCube,
        Triggers::TheWhisperingVault,
        Triggers::OpenTheDoor,
        Triggers::TheAquaMaze,
        Triggers::TheSubwayStation,
        Triggers::StationDrone,
        Triggers::RedElevatortoCity,
        Triggers::TheCity,
        Triggers::CityCrane,
        Triggers::DoubleCranePlatforms,
        Triggers::ElevatortoBuildings,
        Triggers::OverTheBuildings,
        Triggers::BuildingsHelicopter,
        Triggers::TheWarehouse,
        Triggers::TheHarbor,
        Triggers::BlueRailingChariot,
        Triggers::Elevatortostairs,
        Triggers::HelicoptertoTemple,
        Triggers::TheTemple,
        Triggers::ElevatortoAsianShrine,
        Triggers::TheAsianShrine,
        Triggers::WoodenHorseWagon,
        Triggers::TheDeities,
        Triggers::WoodenBoat,
        Triggers::ZeusLightning,
        Triggers::AirBalloonPump,
        Triggers::TheGarden,
        Triggers::TheFinalTrials,
        Triggers::Kiosk,
        Triggers::Carriage,
        Triggers::TheSun,
    ]
}

fn switch_mut<'a>(settings: &'a mut Settings, trigger: Triggers) -> &'a mut bool {
    match trigger {
        Triggers::Underworld => &mut settings.toggle_underworld,
        Triggers::FirstLadder => &mut settings.toggle_first_ladder,
        Triggers::HellCliffs => &mut settings.toggle_hell_cliffs,
        Triggers::HellCliffsDrone => &mut settings.toggle_hell_cliffs_drone,
        Triggers::TheCarRace => &mut settings.toggle_the_car_race,
        Triggers::RotatingCube => &mut settings.toggle_rotating_cube,
        Triggers::TheWhisperingVault => &mut settings.toggle_the_whispering_vault,
        Triggers::OpenTheDoor => &mut settings.toggle_open_the_door,
        Triggers::TheAquaMaze => &mut settings.toggle_the_aqua_maze,
        Triggers::TheSubwayStation => &mut settings.toggle_the_subway_station,
        Triggers::StationDrone => &mut settings.toggle_station_drone,
        Triggers::RedElevatortoCity => &mut settings.toggle_red_elevator_to_city,
        Triggers::TheCity => &mut settings.toggle_the_city,
        Triggers::CityCrane => &mut settings.toggle_city_crane,
        Triggers::DoubleCranePlatforms => &mut settings.toggle_double_crane_platforms,
        Triggers::ElevatortoBuildings => &mut settings.toggle_elevator_to_buildings,
        Triggers::OverTheBuildings => &mut settings.toggle_over_the_buildings,
        Triggers::BuildingsHelicopter => &mut settings.toggle_buildings_helicopter,
        Triggers::TheWarehouse => &mut settings.toggle_the_warehouse,
        Triggers::TheHarbor => &mut settings.toggle_the_harbor,
        Triggers::BlueRailingChariot => &mut settings.toggle_blue_railing_chariot,
        Triggers::Elevatortostairs => &mut settings.toggle_elevator_to_stairs,
        Triggers::HelicoptertoTemple => &mut settings.toggle_helicopter_to_temple,
        Triggers::TheTemple => &mut settings.toggle_the_temple,
        Triggers::ElevatortoAsianShrine => &mut settings.toggle_elevator_to_asian_shrine,
        Triggers::TheAsianShrine => &mut settings.toggle_the_asian_shrine,
        Triggers::WoodenHorseWagon => &mut settings.toggle_wooden_horse_wagon,
        Triggers::TheDeities => &mut settings.toggle_the_deities,
        Triggers::WoodenBoat => &mut settings.toggle_wooden_boat,
        Triggers::ZeusLightning => &mut settings.toggle_zeus_lightning,
        Triggers::AirBalloonPump => &mut settings.toggle_air_balloon_pump,
        Triggers::TheGarden => &mut settings.toggle_the_garden,
        Triggers::TheFinalTrials => &mut settings.toggle_the_final_trials,
        Triggers::Kiosk => &mut settings.toggle_kiosk,
        Triggers::Carriage => &mut settings.toggle_carriage,
        Triggers::TheSun => &mut settings.toggle_the_sun,
    }
}

fn only(enabled: &[Triggers]) -> Settings {
    let mut settings = Settings::with_all(false);
    for trigger in enabled {
        *switch_mut(&mut settings, *trigger) = true;
    }
    settings
}

fn all_but(disabled: &[Triggers]) -> Settings {
    let mut settings = Settings::with_all(true);
    for trigger in disabled {
        *switch_mut(&mut settings, *trigger) = false;
    }
    settings
}

#[test]
fn table_has_thirty_six_distinct_entries() {
    let table = table_in_order();
    assert_eq!(table.len(), TRIGGER_COUNT);
    assert_eq!(TRIGGER_COUNT, 36);
    for (i, a) in table.iter().enumerate() {
        for (j, b) in table.iter().enumerate() {
            assert_eq!(a == b, i == j);
        }
    }
}

#[test]
fn raw_successor_follows_table_order() {
    let table = table_in_order();
    for i in 0..table.len() - 1 {
        assert_eq!(table[i].next_trigger_raw(), table[i + 1]);
    }
}

#[test]
fn raw_successor_of_first_is_first_ladder() {
    assert_eq!(Triggers::Underworld.next_trigger_raw(), Triggers::FirstLadder);
}

#[test]
fn raw_successor_of_last_is_itself() {
    assert_eq!(Triggers::TheSun.next_trigger_raw(), Triggers::TheSun);
    assert_eq!(Triggers::Carriage.next_trigger_raw(), Triggers::TheSun);
}

#[test]
fn only_the_last_is_its_own_successor() {
    for trigger in table_in_order() {
        assert_eq!(trigger.next_trigger_raw() == trigger, trigger == Triggers::TheSun);
    }
}

#[test]
fn is_enabled_reads_the_switch_of_its_checkpoint() {
    for trigger in table_in_order() {
        let on = only(&[trigger]);
        let off = all_but(&[trigger]);
        for other in table_in_order() {
            assert_eq!(other.is_enabled(&on), other == trigger);
            assert_eq!(other.is_enabled(&off), other != trigger);
        }
    }
}

#[test]
fn is_enabled_sees_a_switch_that_changes() {
    let mut settings = Settings::with_all(true);
    assert!(Triggers::HellCliffs.is_enabled(&settings));
    settings.toggle_hell_cliffs = false;
    assert!(!Triggers::HellCliffs.is_enabled(&settings));
    settings.toggle_hell_cliffs = true;
    assert!(Triggers::HellCliffs.is_enabled(&settings));
}

#[test]
fn default_settings_enable_everything() {
    let settings = Settings::default();
    assert_eq!(settings, Settings::with_all(true));
    for trigger in table_in_order() {
        assert!(trigger.is_enabled(&settings));
    }
}

#[test]
fn with_all_false_disables_everything() {
    let settings = Settings::with_all(false);
    for trigger in table_in_order() {
        assert!(!trigger.is_enabled(&settings));
    }
}

#[test]
fn first_trigger_with_everything_enabled_is_underworld() {
    assert_eq!(Triggers::first_trigger(&Settings::default()), Triggers::Underworld);
}

#[test]
fn first_trigger_skips_disabled_prefix() {
    let settings = all_but(&[Triggers::Underworld, Triggers::FirstLadder, Triggers::HellCliffs]);
    assert_eq!(Triggers::first_trigger(&settings), Triggers::HellCliffsDrone);
}

#[test]
fn first_trigger_is_the_first_enabled_for_every_single_switch() {
    for trigger in table_in_order() {
        assert_eq!(Triggers::first_trigger(&only(&[trigger])), trigger);
    }
}

#[test]
fn first_trigger_with_only_the_sun_is_the_sun() {
    assert_eq!(Triggers::first_trigger(&only(&[Triggers::TheSun])), Triggers::TheSun);
}

#[test]
fn first_trigger_with_nothing_enabled_ends_on_the_last() {
    assert_eq!(Triggers::first_trigger(&Settings::with_all(false)), Triggers::TheSun);
}

#[test]
fn first_trigger_is_the_same_each_time() {
    let settings = all_but(&[Triggers::Underworld, Triggers::HellCliffs]);
    let first = Triggers::first_trigger(&settings);
    assert_eq!(first, Triggers::FirstLadder);
    assert_eq!(Triggers::first_trigger(&settings), first);
    assert_eq!(Triggers::first_trigger(&settings), first);
}

#[test]
fn next_trigger_with_everything_enabled_is_the_raw_successor() {
    let settings = Settings::default();
    for trigger in table_in_order() {
        assert_eq!(trigger.next_trigger(&settings), trigger.next_trigger_raw());
    }
}

#[test]
fn next_trigger_skips_disabled_checkpoints() {
    let settings = all_but(&[Triggers::FirstLadder, Triggers::HellCliffs]);
    assert_eq!(Triggers::Underworld.next_trigger(&settings), Triggers::HellCliffsDrone);
    assert_eq!(Triggers::FirstLadder.next_trigger(&settings), Triggers::HellCliffsDrone);
    assert_eq!(Triggers::HellCliffs.next_trigger(&settings), Triggers::HellCliffsDrone);
    assert_eq!(Triggers::HellCliffsDrone.next_trigger(&settings), Triggers::TheCarRace);
}

#[test]
fn next_trigger_does_not_look_at_its_own_switch() {
    let settings = only(&[Triggers::TheCity]);
    assert_eq!(Triggers::TheCity.next_trigger(&settings), Triggers::TheSun);
    assert_eq!(Triggers::RedElevatortoCity.next_trigger(&settings), Triggers::TheCity);
}

#[test]
fn next_trigger_never_goes_back() {
    let settings = only(&[Triggers::Underworld, Triggers::TheTemple]);
    assert_eq!(Triggers::Underworld.next_trigger(&settings), Triggers::TheTemple);
    assert_eq!(Triggers::TheTemple.next_trigger(&settings), Triggers::TheSun);
    assert_eq!(Triggers::Kiosk.next_trigger(&settings), Triggers::TheSun);
}

#[test]
fn next_trigger_of_the_last_is_the_last() {
    assert_eq!(Triggers::TheSun.next_trigger(&Settings::default()), Triggers::TheSun);
    assert_eq!(Triggers::TheSun.next_trigger(&Settings::with_all(false)), Triggers::TheSun);
    assert_eq!(Triggers::TheSun.next_trigger(&only(&[Triggers::Underworld])), Triggers::TheSun);
}

#[test]
fn next_trigger_with_nothing_enabled_ends_on_the_last() {
    let settings = Settings::with_all(false);
    for trigger in table_in_order() {
        assert_eq!(trigger.next_trigger(&settings), Triggers::TheSun);
    }
}

#[test]
fn next_trigger_ends_on_a_disabled_last_checkpoint() {
    let settings = all_but(&[Triggers::Kiosk, Triggers::Carriage, Triggers::TheSun]);
    assert_eq!(Triggers::TheFinalTrials.next_trigger(&settings), Triggers::TheSun);
    assert_eq!(Triggers::TheGarden.next_trigger(&settings), Triggers::TheFinalTrials);
}

#[test]
fn searches_return_an_enabled_checkpoint_or_the_last() {
    let table = table_in_order();
    for gap in 1..table.len() {
        let mut enabled: Vec<Triggers> = Vec::new();
        let mut i: usize = gap - 1;
        while i < table.len() {
            enabled.push(table[i]);
            i += gap;
        }
        let settings = only(&enabled);
        let first = Triggers::first_trigger(&settings);
        assert!(first.is_enabled(&settings));
        assert_eq!(first, table[gap - 1]);
        for trigger in table_in_order() {
            let next = trigger.next_trigger(&settings);
            assert!(next.is_enabled(&settings) || next == Triggers::TheSun);
        }
    }
}

#[test]
fn only_the_sun_enabled_arms_the_sun_and_keeps_it() {
    let settings = only(&[Triggers::TheSun]);
    let first = Triggers::first_trigger(&settings);
    assert_eq!(first, Triggers::TheSun);
    assert_eq!(first.next_trigger(&settings), Triggers::TheSun);
}
