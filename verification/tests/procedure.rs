use mumbleacre::codec::AcreMessage;
use mumbleacre::procedure::{is_known_v214_procedure, ACRE2_V214_WIRE_PROCEDURES};

#[test]
fn the_procedure_inventory_knows_its_own_names_only() {
    for name in ACRE2_V214_WIRE_PROCEDURES {
        assert!(is_known_v214_procedure(name));
        let message = AcreMessage::new(name, vec!["1".to_owned()]).unwrap();
        assert_eq!(message.procedure(), name);
    }
    assert!(!is_known_v214_procedure("pingg"));
    assert!(!is_known_v214_procedure(""));
}

#[test]
fn sample_messages_use_known_procedures() {
    for line in [
        "ping:",
        "getPluginVersion:",
        "getClientID:2:1234,",
        "updateSelf:10,20,30,0,1,0,7,",
        "updateSpeakingData:r,42,0,0,",
        "setSelectableVoiceCurve:0.750000,",
        "startRadioSpeaking:ACRE_PRC152,",
        "stopRadioSpeaking:",
        "loadSound:ACRE_Click,1,2,QUJD,",
        "playLoadedSound:ACRE_Click,1,2,3,4,5,6,0.5,1,",
        "localStartSpeaking:41,7,1,ACRE_PRC152,",
        "remoteStopSpeaking:42,1:2,1,ACRE_PRC152_ID_1,",
    ] {
        let message = AcreMessage::parse(line.as_bytes()).unwrap();
        assert!(is_known_v214_procedure(message.procedure()));
    }
}
