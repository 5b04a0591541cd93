use ads123x::channel::ADS1232Channel;
use ads123x::channel::ADS1234Channel;

#[test]
fn select_levels_1232() {
    assert_eq!(ADS1232Channel::AIN1.select_levels(), (false, false));
    assert_eq!(ADS1232Channel::AIN2.select_levels(), (true, false));
    assert_eq!(ADS1232Channel::Temp.select_levels(), (false, true));
}

#[test]
fn from_levels_1232() {
    assert_eq!(ADS1232Channel::from_levels(false, false), ADS1232Channel::AIN1);
    assert_eq!(ADS1232Channel::from_levels(true, false), ADS1232Channel::AIN2);
    assert_eq!(ADS1232Channel::from_levels(false, true), ADS1232Channel::Temp);
    assert_eq!(ADS1232Channel::from_levels(true, true), ADS1232Channel::Temp);
}

#[test]
fn mapping_round_trips_1232() {
    let channels = [ADS1232Channel::AIN1, ADS1232Channel::AIN2, ADS1232Channel::Temp];
    for c in channels {
        let (a0, a1) = c.select_levels();
        assert_eq!(ADS1232Channel::from_levels(a0, a1), c);
    }
    // Distinct channels drive distinct level pairs.
    for c1 in channels {
        for c2 in channels {
            if c1 != c2 {
                assert_ne!(c1.select_levels(), c2.select_levels());
            }
        }
    }
    // Every reachable level pair derives a channel that drives exactly
    // that pair; (high, high) is never driven by this variant.
    for (a0, a1) in [(false, false), (true, false), (false, true)] {
        assert_eq!(ADS1232Channel::from_levels(a0, a1).select_levels(), (a0, a1));
    }
    for c in channels {
        assert_ne!(c.select_levels(), (true, true));
    }
}

#[test]
fn is_temp_1232() {
    assert!(!ADS1232Channel::AIN1.is_temp());
    assert!(!ADS1232Channel::AIN2.is_temp());
    assert!(ADS1232Channel::Temp.is_temp());
}

#[test]
fn select_levels_1234() {
    assert_eq!(ADS1234Channel::AIN1.select_levels(), (false, false));
    assert_eq!(ADS1234Channel::AIN2.select_levels(), (true, false));
    assert_eq!(ADS1234Channel::AIN3.select_levels(), (false, true));
    assert_eq!(ADS1234Channel::AIN4.select_levels(), (true, true));
}

#[test]
fn from_levels_1234() {
    assert_eq!(ADS1234Channel::from_levels(false, false), ADS1234Channel::AIN1);
    assert_eq!(ADS1234Channel::from_levels(true, false), ADS1234Channel::AIN2);
    assert_eq!(ADS1234Channel::from_levels(false, true), ADS1234Channel::AIN3);
    assert_eq!(ADS1234Channel::from_levels(true, true), ADS1234Channel::AIN4);
}

#[test]
fn mapping_round_trips_1234() {
    let channels = [
        ADS1234Channel::AIN1,
        ADS1234Channel::AIN2,
        ADS1234Channel::AIN3,
        ADS1234Channel::AIN4,
    ];
    for c in channels {
        let (a0, a1) = c.select_levels();
        assert_eq!(ADS1234Channel::from_levels(a0, a1), c);
    }
    for (a0, a1) in [(false, false), (true, false), (false, true), (true, true)] {
        assert_eq!(ADS1234Channel::from_levels(a0, a1).select_levels(), (a0, a1));
    }
}
