use nep_gw::model::InverterModel;

#[test]
fn test_inverter_model_from_name_bdm1200lv() {
    assert_eq!(InverterModel::from_name("BDM-1200-LV"), Some(InverterModel::Bdm1200Lv));
    assert_eq!(InverterModel::from_name("bdm1200"), Some(InverterModel::Bdm1200Lv));
}

#[test]
fn test_inverter_model_from_name() {
    assert_eq!(InverterModel::from_name("BDM-800"), Some(InverterModel::Bdm800));
    assert_eq!(InverterModel::from_name("bdm800"), Some(InverterModel::Bdm800));
    assert_eq!(InverterModel::from_name("BDM 400"), Some(InverterModel::Bdm400));
    assert_eq!(InverterModel::from_name("BDM-600"), None);
}

#[test]
fn names_are_read_leniently() {
    for name in ["BDM-1200-LV", "bdm 1200 lv", " B.D.M.1200 ", "Bdm\u{2013}1200LV", "BDM-1200"] {
        assert_eq!(InverterModel::from_name(name), Some(InverterModel::Bdm1200Lv));
    }
    for name in ["", "BDM", "BDM-4000", "BDM-400-LV", "\u{ff22}DM400"] {
        assert_eq!(InverterModel::from_name(name), None);
    }
}
