use hlwm_bar::geometry::ArgumentError;
use hlwm_bar::geometry::DynamicConfig;

fn args(list: &[&str]) -> Vec<String> {
    list.iter().map(|s| s.to_string()).collect()
}

#[test]
fn five_numbers_give_a_geometry() {
    let config = DynamicConfig::from_args(&args(&["bar", "0", "0", "1200", "20", "0"]));
    assert_eq!(
        config,
        Ok(DynamicConfig { x_offset: 0, y_offset: 0, width: 1200, height: 20, monitor: 0 })
    );
    let moved = DynamicConfig::from_args(&args(&["bar", "-1920", "+8", "1920", "24", "1"]));
    assert_eq!(
        moved,
        Ok(DynamicConfig { x_offset: -1920, y_offset: 8, width: 1920, height: 24, monitor: 1 })
    );
}

#[test]
fn wrong_count_is_reported() {
    assert_eq!(
        DynamicConfig::from_args(&args(&[])),
        Err(ArgumentError::WrongCount { given: 0 })
    );
    assert_eq!(
        DynamicConfig::from_args(&args(&["bar"])),
        Err(ArgumentError::WrongCount { given: 1 })
    );
    assert_eq!(
        DynamicConfig::from_args(&args(&["bar", "0", "0", "1200", "20"])),
        Err(ArgumentError::WrongCount { given: 5 })
    );
    assert_eq!(
        DynamicConfig::from_args(&args(&["bar", "0", "0", "1200", "20", "0", "1"])),
        Err(ArgumentError::WrongCount { given: 7 })
    );
    assert_eq!(
        DynamicConfig::from_args(&args(&["bar", "x", "y", "w", "h"])),
        Err(ArgumentError::WrongCount { given: 5 })
    );
}

#[test]
fn first_bad_number_is_reported() {
    assert_eq!(
        DynamicConfig::from_args(&args(&["bar", "x", "0", "1200", "20", "0"])),
        Err(ArgumentError::NotANumber { position: 1 })
    );
    assert_eq!(
        DynamicConfig::from_args(&args(&["bar", "0", "", "1200", "20", "0"])),
        Err(ArgumentError::NotANumber { position: 2 })
    );
    assert_eq!(
        DynamicConfig::from_args(&args(&["bar", "0", "0", "-1", "20", "0"])),
        Err(ArgumentError::NotANumber { position: 3 })
    );
    assert_eq!(
        DynamicConfig::from_args(&args(&["bar", "0", "0", "1200", "4294967296", "0"])),
        Err(ArgumentError::NotANumber { position: 4 })
    );
    assert_eq!(
        DynamicConfig::from_args(&args(&["bar", "0", "0", "1200", "20", "2147483648"])),
        Err(ArgumentError::NotANumber { position: 5 })
    );
    assert_eq!(
        DynamicConfig::from_args(&args(&["bar", "0", "b", "c", "20", "e"])),
        Err(ArgumentError::NotANumber { position: 2 })
    );
}

#[test]
fn default_geometry_is_empty() {
    assert_eq!(
        DynamicConfig::default(),
        DynamicConfig { x_offset: 0, y_offset: 0, width: 0, height: 0, monitor: 0 }
    );
}

#[test]
fn another_width_changes_nothing_else() {
    let config = DynamicConfig { x_offset: 3, y_offset: 4, width: 1200, height: 20, monitor: 1 };
    assert_eq!(
        config.with_width(800),
        DynamicConfig { x_offset: 3, y_offset: 4, width: 800, height: 20, monitor: 1 }
    );
}
