use cycling_visualizer::races::{
    bytes_lt, initial_race, order_race_dirs, pick_data_dir, race_argument, ExaggerationTable,
    RaceExaggeration, Settings, UNIT_EXAGGERATION,
};

#[test]
fn byte_order() {
    assert!(bytes_lt(&b"giro".to_vec(), &b"tdf".to_vec()));
    assert!(!bytes_lt(&b"tdf".to_vec(), &b"giro".to_vec()));
    assert!(bytes_lt(&b"td".to_vec(), &b"tdf".to_vec()));
    assert!(!bytes_lt(&b"tdf".to_vec(), &b"tdf".to_vec()));
    assert!(bytes_lt(&Vec::new(), &b"a".to_vec()));
}

#[test]
fn race_directories_in_name_order() {
    let names = vec![b"vuelta".to_vec(), b"tdf".to_vec(), b"notes".to_vec(), b"giro".to_vec()];
    let usable = vec![true, true, false, true];
    assert_eq!(order_race_dirs(&names, &usable), vec![3, 1, 0]);
    assert!(order_race_dirs(&Vec::new(), &Vec::new()).is_empty());
    let same = vec![b"a".to_vec(), b"a".to_vec()];
    assert_eq!(order_race_dirs(&same, &vec![true, true]), vec![0, 1]);
}

#[test]
fn data_directory_choice() {
    assert_eq!(pick_data_dir(&vec![false, false, true, true]), 2);
    assert_eq!(pick_data_dir(&vec![false, false]), 0);
    assert_eq!(pick_data_dir(&vec![true, true]), 0);
    assert_eq!(pick_data_dir(&Vec::new()), 0);
}

#[test]
fn race_from_command_line() {
    let args: Vec<String> = vec!["viz".into(), "--race".into(), "giro".into()];
    assert_eq!(race_argument(&args), Some(2));
    let args: Vec<String> = vec!["viz".into(), "--race".into()];
    assert_eq!(race_argument(&args), None);
    let args: Vec<String> = vec!["--race".into(), "tdf".into(), "--race".into(), "giro".into()];
    assert_eq!(race_argument(&args), Some(1));
    assert_eq!(race_argument(&Vec::new()), None);
}

#[test]
fn initial_race_choice() {
    let ids: Vec<String> = vec!["giro".into(), "tdf".into(), "vuelta".into()];
    assert_eq!(initial_race(&ids, Some(&"tdf".to_string())), (1, false));
    assert_eq!(initial_race(&ids, Some(&"paris-nice".to_string())), (0, true));
    assert_eq!(initial_race(&ids, None), (0, true));
}

#[test]
fn exaggeration_settings_read_back() {
    let mut t = ExaggerationTable::new();
    let tdf = "tdf".to_string();
    let giro = "giro".to_string();
    assert_eq!(t.get(&tdf), RaceExaggeration::default());
    assert_eq!(f32::from_bits(t.get(&tdf).exaggeration_2d), 1.0);
    let ex = RaceExaggeration { exaggeration_2d: 0.5f32.to_bits(), exaggeration_3d: 0.25f32.to_bits() };
    t.set(&tdf, ex);
    assert_eq!(t.get(&tdf), ex);
    assert_eq!(t.get(&giro).exaggeration_3d, UNIT_EXAGGERATION);
    let ex2 = RaceExaggeration { exaggeration_2d: 0.75f32.to_bits(), exaggeration_3d: 0.25f32.to_bits() };
    t.set(&tdf, ex2);
    assert_eq!(t.get(&tdf), ex2);
    assert_eq!(t.entries.len(), 1);
}

#[test]
fn default_settings() {
    let s = Settings::default();
    assert!(!s.use_metallic && s.use_neon_green && s.show_shadows && s.use_brushed && !s.white_sky);
    assert_eq!(s.metallic_smoothing, 30);
    assert!(s.races.entries.is_empty());
}
