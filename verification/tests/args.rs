use ranim_render::args::{Args, Quality};

#[test]
fn every_quality_has_its_size_and_rate() {
    let expected = [
        (Quality::FourK, 3840, 2160, 15360, 60),
        (Quality::Production, 2560, 1440, 10240, 60),
        (Quality::High, 1920, 1080, 7680, 60),
        (Quality::Medium, 1280, 720, 5120, 30),
        (Quality::Low, 854, 480, 3584, 15),
    ];
    for (quality, width, height, bytes_per_row, rate) in expected {
        let size = quality.size();
        assert_eq!(size.width, width);
        assert_eq!(size.height, height);
        assert_eq!(size.bytes_per_row, bytes_per_row);
        assert_eq!(quality.frame_rate(), rate);
    }
}

#[test]
fn a_quality_is_named_by_its_words_in_any_case() {
    for word in ["high", "hi", "h", "HIGH", "Hi", "H"] {
        assert_eq!(Quality::from_str(word), Ok(Quality::High));
    }
    for word in ["medium", "mid", "m", "MeDiUm"] {
        assert_eq!(Quality::from_str(word), Ok(Quality::Medium));
    }
    for word in ["low", "lo", "l", "LOW"] {
        assert_eq!(Quality::from_str(word), Ok(Quality::Low));
    }
    for word in ["production", "prod", "p", "Prod"] {
        assert_eq!(Quality::from_str(word), Ok(Quality::Production));
    }
    for word in ["fourk", "4k", "k", "4K", "FourK"] {
        assert_eq!(Quality::from_str(word), Ok(Quality::FourK));
    }
}

#[test]
fn a_word_that_names_no_quality_is_reported_as_given() {
    assert_eq!(Quality::from_str("Ultra"), Err("Invalid quality: Ultra".to_string()));
    assert_eq!(Quality::from_str(""), Err("Invalid quality: ".to_string()));
    assert_eq!(Quality::from_str(" high"), Err("Invalid quality:  high".to_string()));
    assert_eq!(Quality::from_str("HÎGH"), Err("Invalid quality: HÎGH".to_string()));
}

#[test]
fn a_quality_prints_its_name() {
    assert_eq!(Quality::FourK.to_string(), "FourK");
    assert_eq!(Quality::Production.to_string(), "Production");
    assert_eq!(Quality::High.to_string(), "High");
    assert_eq!(Quality::Medium.to_string(), "Medium");
    assert_eq!(Quality::Low.to_string(), "Low");
}

#[test]
fn args_carry_what_was_asked() {
    let args = Args {
        preview: false,
        quality: Quality::High,
        output_file: "media/output".to_string(),
        single_frame: true,
        no_output: false,
    };
    let copy = args.clone();
    assert_eq!(copy.quality, Quality::High);
    assert_eq!(copy.output_file, "media/output");
    assert!(copy.single_frame && !copy.preview && !copy.no_output);
}
