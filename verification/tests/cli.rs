use space_recorder::ascii::CharSet;
use space_recorder::cli::{Args, ArgsError, CharacterSet, Command, ConfigAction, Position, Size};
use space_recorder::terminal::{ModalPosition, ModalSize};

fn args_defaults() {
    let args = Args::parse_from(&["space-recorder"]);
    assert!(args.shell.is_none());
    assert_eq!(args.camera, 0);
    assert!(!args.no_camera);
    assert_eq!(args.position, Position::BottomRight);
    assert_eq!(args.size, Size::Small);
    assert_eq!(args.charset, CharacterSet::Blocks);
    assert!(!args.mirror);
    assert!(!args.invert);
    assert!(!args.no_status);
    assert!(args.config.is_none());
    assert!(args.command.is_none());
}

fn args_mirror_flag() {
    let args = Args::parse_from(&["space-recorder", "--mirror"]);
    assert!(args.mirror);
}

fn args_invert_flag() {
    let args = Args::parse_from(&["space-recorder", "--invert"]);
    assert!(args.invert);
}

fn args_no_status_flag() {
    let args = Args::parse_from(&["space-recorder", "--no-status"]);
    assert!(args.no_status);
}

fn args_no_camera_flag() {
    let args = Args::parse_from(&["space-recorder", "--no-camera"]);
    assert!(args.no_camera);
}

fn args_camera_index() {
    let args = Args::parse_from(&["space-recorder", "--camera", "2"]);
    assert_eq!(args.camera, 2);
}

fn args_position_values() {
    let args = Args::parse_from(&["space-recorder", "--position", "top-left"]);
    assert_eq!(args.position, Position::TopLeft);

    let args = Args::parse_from(&["space-recorder", "-p", "top-right"]);
    assert_eq!(args.position, Position::TopRight);

    let args = Args::parse_from(&["space-recorder", "--position", "bottom-left"]);
    assert_eq!(args.position, Position::BottomLeft);

    let args = Args::parse_from(&["space-recorder", "--position", "bottom-right"]);
    assert_eq!(args.position, Position::BottomRight);

    let args = Args::parse_from(&["space-recorder", "--position", "center"]);
    assert_eq!(args.position, Position::Center);
}

fn args_size_values() {
    let args = Args::parse_from(&["space-recorder", "--size", "small"]);
    assert_eq!(args.size, Size::Small);

    let args = Args::parse_from(&["space-recorder", "--size", "medium"]);
    assert_eq!(args.size, Size::Medium);

    let args = Args::parse_from(&["space-recorder", "--size", "large"]);
    assert_eq!(args.size, Size::Large);
}

fn args_charset_values() {
    let args = Args::parse_from(&["space-recorder", "--charset", "standard"]);
    assert_eq!(args.charset, CharacterSet::Standard);

    let args = Args::parse_from(&["space-recorder", "--charset", "blocks"]);
    assert_eq!(args.charset, CharacterSet::Blocks);

    let args = Args::parse_from(&["space-recorder", "--charset", "minimal"]);
    assert_eq!(args.charset, CharacterSet::Minimal);

    let args = Args::parse_from(&["space-recorder", "--charset", "braille"]);
    assert_eq!(args.charset, CharacterSet::Braille);
}

fn args_shell_option() {
    let args = Args::parse_from(&["space-recorder", "--shell", "/bin/bash"]);
    assert_eq!(args.shell, Some("/bin/bash".to_string()));

    let args = Args::parse_from(&["space-recorder", "-s", "/bin/fish"]);
    assert_eq!(args.shell, Some("/bin/fish".to_string()));
}

fn args_config_option() {
    let args = Args::parse_from(&["space-recorder", "--config", "/tmp/config.toml"]);
    assert_eq!(args.config, Some("/tmp/config.toml".to_string()));

    let args = Args::parse_from(&["space-recorder", "-c", "/tmp/test.toml"]);
    assert_eq!(args.config, Some("/tmp/test.toml".to_string()));
}

fn args_list_cameras_subcommand() {
    let args = Args::parse_from(&["space-recorder", "list-cameras"]);
    assert!(matches!(args.command, Some(Command::ListCameras)));
}

fn args_config_show_subcommand() {
    let args = Args::parse_from(&["space-recorder", "config", "show"]);
    match args.command {
        Some(Command::Config {
            action: ConfigAction::Show,
        }) => (),
        _ => panic!("Expected Config Show subcommand"),
    }
}

fn args_config_init_subcommand() {
    let args = Args::parse_from(&["space-recorder", "config", "init"]);
    match args.command {
        Some(Command::Config {
            action: ConfigAction::Init,
        }) => (),
        _ => panic!("Expected Config Init subcommand"),
    }
}

fn args_combined_options() {
    let args = Args::parse_from(&[
        "space-recorder",
        "--shell",
        "/bin/zsh",
        "--camera",
        "1",
        "--position",
        "top-left",
        "--size",
        "large",
        "--charset",
        "braille",
        "--mirror",
        "--invert",
        "--no-status",
    ]);
    assert_eq!(args.shell, Some("/bin/zsh".to_string()));
    assert_eq!(args.camera, 1);
    assert_eq!(args.position, Position::TopLeft);
    assert_eq!(args.size, Size::Large);
    assert_eq!(args.charset, CharacterSet::Braille);
    assert!(args.mirror);
    assert!(args.invert);
    assert!(args.no_status);
}

fn position_to_modal_position() {
    assert_eq!(
        ModalPosition::from(Position::TopLeft),
        ModalPosition::TopLeft
    );
    assert_eq!(
        ModalPosition::from(Position::TopRight),
        ModalPosition::TopRight
    );
    assert_eq!(
        ModalPosition::from(Position::BottomLeft),
        ModalPosition::BottomLeft
    );
    assert_eq!(
        ModalPosition::from(Position::BottomRight),
        ModalPosition::BottomRight
    );
    assert_eq!(ModalPosition::from(Position::Center), ModalPosition::Center);
}

fn size_to_modal_size() {
    assert_eq!(ModalSize::from(Size::Small), ModalSize::Small);
    assert_eq!(ModalSize::from(Size::Medium), ModalSize::Medium);
    assert_eq!(ModalSize::from(Size::Large), ModalSize::Large);
}

fn charset_to_ascii_charset() {
    assert_eq!(
        CharSet::from(CharacterSet::Standard),
        CharSet::Standard
    );
    assert_eq!(
        CharSet::from(CharacterSet::Blocks),
        CharSet::Blocks
    );
    assert_eq!(
        CharSet::from(CharacterSet::Minimal),
        CharSet::Minimal
    );
    assert_eq!(
        CharSet::from(CharacterSet::Braille),
        CharSet::Braille
    );
}

#[test]
fn args_test_args_defaults() {
    args_defaults();
}

#[test]
fn args_test_args_mirror_flag() {
    args_mirror_flag();
}

#[test]
fn cli_test_args_mirror_flag() {
    args_mirror_flag();
}

#[test]
fn args_test_args_invert_flag() {
    args_invert_flag();
}

#[test]
fn cli_test_args_invert_flag() {
    args_invert_flag();
}

#[test]
fn args_test_args_no_status_flag() {
    args_no_status_flag();
}

#[test]
fn cli_test_args_no_status_flag() {
    args_no_status_flag();
}

#[test]
fn args_test_args_no_camera_flag() {
    args_no_camera_flag();
}

#[test]
fn cli_test_args_no_camera_flag() {
    args_no_camera_flag();
}

#[test]
fn args_test_args_camera_index() {
    args_camera_index();
}

#[test]
fn cli_test_args_camera_index() {
    args_camera_index();
}

#[test]
fn args_test_args_position_values() {
    args_position_values();
}

#[test]
fn cli_test_args_position_values() {
    args_position_values();
}

#[test]
fn args_test_args_size_values() {
    args_size_values();
}

#[test]
fn cli_test_args_size_values() {
    args_size_values();
}

#[test]
fn args_test_args_charset_values() {
    args_charset_values();
}

#[test]
fn cli_test_args_charset_values() {
    args_charset_values();
}

#[test]
fn args_test_args_shell_option() {
    args_shell_option();
}

#[test]
fn cli_test_args_shell_option() {
    args_shell_option();
}

#[test]
fn args_test_args_config_option() {
    args_config_option();
}

#[test]
fn cli_test_args_config_option() {
    args_config_option();
}

#[test]
fn args_test_args_list_cameras_subcommand() {
    args_list_cameras_subcommand();
}

#[test]
fn cli_test_args_list_cameras_subcommand() {
    args_list_cameras_subcommand();
}

#[test]
fn args_test_args_config_show_subcommand() {
    args_config_show_subcommand();
}

#[test]
fn cli_test_args_config_show_subcommand() {
    args_config_show_subcommand();
}

#[test]
fn args_test_args_config_init_subcommand() {
    args_config_init_subcommand();
}

#[test]
fn cli_test_args_config_init_subcommand() {
    args_config_init_subcommand();
}

#[test]
fn args_test_args_combined_options() {
    args_combined_options();
}

#[test]
fn cli_test_args_combined_options() {
    args_combined_options();
}

#[test]
fn enums_test_position_to_modal_position() {
    position_to_modal_position();
}

#[test]
fn cli_test_position_to_modal_position() {
    position_to_modal_position();
}

#[test]
fn enums_test_size_to_modal_size() {
    size_to_modal_size();
}

#[test]
fn cli_test_size_to_modal_size() {
    size_to_modal_size();
}

#[test]
fn enums_test_charset_to_ascii_charset() {
    charset_to_ascii_charset();
}

#[test]
fn cli_test_charset_to_ascii_charset() {
    charset_to_ascii_charset();
}

#[test]
fn args_attached_values() {
    let args = Args::parse_from(&["space-recorder", "--camera=3", "-ptop-right", "-s=/bin/sh", "--config=x.toml"]);
    assert_eq!(args.camera, 3);
    assert_eq!(args.position, Position::TopRight);
    assert_eq!(args.shell, Some("/bin/sh".to_string()));
    assert_eq!(args.config, Some("x.toml".to_string()));
}

#[test]
fn args_size_xlarge_and_huge() {
    assert_eq!(Args::parse_from(&["space-recorder", "--size", "xlarge"]).size, Size::Xlarge);
    assert_eq!(Args::parse_from(&["space-recorder", "--size", "huge"]).size, Size::Huge);
    assert_eq!(ModalSize::from(Size::Xlarge), ModalSize::XLarge);
    assert_eq!(ModalSize::from(Size::Huge), ModalSize::Huge);
}

#[test]
fn args_errors() {
    let parse = |v: &[&str]| Args::try_parse_from(v);
    assert!(matches!(parse(&["r", "--help"]), Err(ArgsError::DisplayHelp)));
    assert!(matches!(parse(&["r", "-V"]), Err(ArgsError::DisplayVersion)));
    assert!(matches!(parse(&["r", "config"]), Err(ArgsError::MissingSubcommand(ref s)) if s == "config"));
    assert!(matches!(parse(&["r", "--bogus"]), Err(ArgsError::UnknownArgument(ref s)) if s == "--bogus"));
    assert!(matches!(parse(&["r", "--shell"]), Err(ArgsError::MissingValue(ref s)) if s == "--shell"));
    assert!(matches!(parse(&["r", "--camera", "-1"]), Err(ArgsError::MissingValue(ref s)) if s == "--camera"));
    assert!(matches!(
        parse(&["r", "--camera", "x"]),
        Err(ArgsError::InvalidValue { ref arg, ref value }) if arg == "--camera" && value == "x"
    ));
    assert!(matches!(
        parse(&["r", "--size", "tiny"]),
        Err(ArgsError::InvalidValue { ref arg, ref value }) if arg == "--size" && value == "tiny"
    ));
    assert!(matches!(parse(&["r", "--mirror=yes"]), Err(ArgsError::UnexpectedValue(ref s)) if s == "--mirror"));
    assert!(matches!(parse(&["r", "--mirror", "--mirror"]), Err(ArgsError::Repeated(ref s)) if s == "--mirror"));
    assert!(matches!(parse(&["r", "list-cameras", "--mirror"]), Err(ArgsError::UnknownArgument(ref s)) if s == "--mirror"));
    assert!(matches!(parse(&["r", "config", "edit"]), Err(ArgsError::UnknownArgument(ref s)) if s == "edit"));
    assert!(matches!(parse(&["r", "--", "x"]), Err(ArgsError::UnknownArgument(ref s)) if s == "x"));
}

#[test]
fn args_options_before_subcommand() {
    let args = Args::parse_from(&["space-recorder", "--mirror", "config", "init"]);
    assert!(args.mirror);
    assert!(matches!(args.command, Some(Command::Config { action: ConfigAction::Init })));
}
