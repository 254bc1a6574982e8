use blitkit::conversion::FragmentEntry;
use blitkit::shader::BLIT_SHADER;

fn parsed() -> naga::Module {
    naga::front::wgsl::parse_str(BLIT_SHADER).expect("blit shader parses")
}

#[test]
fn blit_shader_validates() {
    let module = parsed();
    let mut validator =
        naga::valid::Validator::new(naga::valid::ValidationFlags::all(), naga::valid::Capabilities::empty());
    assert!(validator.validate(&module).is_ok());
}

#[test]
fn blit_shader_has_every_entry_point() {
    let module = parsed();
    let names: Vec<&str> = module.entry_points.iter().map(|e| e.name.as_str()).collect();
    assert!(names.contains(&"vs_main"));
    for e in [FragmentEntry::Passthrough, FragmentEntry::LinearToSrgb, FragmentEntry::RgbeToLinear] {
        assert!(names.contains(&e.name()), "missing {}", e.name());
    }
}
