use tb_operator::onboarding::{
    assemble, collect_answers, parse_usize, prompt_line, prompt_optional, prompt_required,
    prompt_theme, prompt_yes_no, AuthSettings, BoothAnswer, LineReader, OnboardingAnswers,
    SetupDefaults,
};

fn production_auth() -> AuthSettings {
    AuthSettings {
        issuer: "https://auth.telephone-booth.example/application/o/tb-operator/".to_owned(),
        client_id: "tb-operator".to_owned(),
        scopes: "openid profile email offline_access".to_owned(),
    }
}

fn default_setup() -> SetupDefaults {
    SetupDefaults {
        operator_base_url: "https://operator.telephone-booth.example".to_owned(),
        auth: production_auth(),
        default_auth: production_auth(),
        theme: "catppuccin-mocha".to_owned(),
        nerd_fonts: true,
        poll_interval_ms: 5_000,
        booths: Vec::new(),
    }
}

fn collect(script: &str, existing: &SetupDefaults) -> OnboardingAnswers {
    let mut input = LineReader::new(script);
    let mut output = String::new();
    collect_answers(&mut input, &mut output, existing)
}

fn default_answers() -> OnboardingAnswers {
    let config = default_setup();
    OnboardingAnswers {
        operator_base_url: config.operator_base_url,
        auth: config.auth,
        theme: config.theme,
        nerd_fonts: config.nerd_fonts,
        poll_interval_ms: config.poll_interval_ms,
        booths: Vec::new(),
    }
}

#[test]
fn accepts_defaults_on_empty_input() {
    // Operator URL, default OIDC (yes), theme, nerd fonts, then no booths —
    // all blank to accept each default.
    let answers = collect("\n\n\n\n\n", &default_setup());
    assert_eq!(answers, default_answers());
}

#[test]
fn collects_custom_oidc_and_booth() {
    let script = [
        "https://api.example.test\n", // operator URL
        "n\n",                        // do not use default OIDC
        "https://auth.example/o/app\n",
        "client-xyz\n",
        "openid offline_access\n",
        "4\n",            // theme → catppuccin-latte (by number)
        "n\n",            // disable nerd fonts
        "y\n",            // add a booth
        "booth-1\n",      // id
        "Lobby\n",        // display name
        "\n",             // debug URL → default
        "super-secret\n", // debug token
        "\n",             // pinned sha → none
        "n\n",            // add another booth? no
    ].concat();
    let answers = collect(&script, &default_setup());

    assert_eq!(answers.operator_base_url, "https://api.example.test");
    assert_eq!(answers.auth.issuer, "https://auth.example/o/app");
    assert_eq!(answers.auth.client_id, "client-xyz");
    assert_eq!(answers.auth.scopes, "openid offline_access");
    assert_eq!(answers.theme, "catppuccin-latte");
    assert!(!answers.nerd_fonts);
    assert_eq!(answers.booths.len(), 1);
    let booth = &answers.booths[0];
    assert_eq!(booth.id, "booth-1");
    assert_eq!(booth.name.as_deref(), Some("Lobby"));
    assert_eq!(
        booth.debug_base_url,
        "https://telephone-booth.example.ts.net/"
    );
    assert_eq!(booth.debug_token.as_deref(), Some("super-secret"));
    assert!(booth.pinned_sha256.is_none());
}

#[test]
fn assemble_moves_booth_token_into_secrets() {
    let answers = OnboardingAnswers {
        operator_base_url: "https://api.example.test".to_owned(),
        auth: production_auth(),
        theme: "bell-canada".to_owned(),
        nerd_fonts: true,
        poll_interval_ms: 5_000,
        booths: vec![BoothAnswer {
            id: "booth-1".to_owned(),
            name: None,
            debug_base_url: "https://telephone-booth.example.ts.net/".to_owned(),
            debug_token: Some("secret".to_owned()),
            pinned_sha256: None,
        }],
    };

    let (config, secrets) = assemble(answers);

    assert_eq!(config.operator_base_url, "https://api.example.test");
    assert!(config.booths[0].debug_token.is_none());
    assert_eq!(secrets.booth_token("booth-1"), Some("secret"));
    assert_eq!(secrets.booth_token("booth-2"), None);
}

#[test]
fn prompt_yes_no_parses_answers() {
    let mut output = String::new();
    let mut yes = LineReader::new("yes\n");
    assert!(prompt_yes_no(&mut yes, &mut output, "?", false));
    let mut no = LineReader::new("n\n");
    assert!(!prompt_yes_no(&mut no, &mut output, "?", true));
    let mut empty = LineReader::new("\n");
    assert!(prompt_yes_no(&mut empty, &mut output, "?", true));
    let mut eof = LineReader::new("");
    assert!(!prompt_yes_no(&mut eof, &mut output, "?", false));
}

#[test]
fn keeps_existing_booths_when_requested() {
    let existing = SetupDefaults {
        booths: vec![BoothAnswer {
            id: "booth-1".to_owned(),
            name: Some("Lobby".to_owned()),
            debug_base_url: "http://localhost:8080".to_owned(),
            debug_token: Some("tok".to_owned()),
            pinned_sha256: None,
        }],
        ..default_setup()
    };
    // operator default, default OIDC, theme, nerd fonts, keep booths (yes),
    // add another (no).
    let answers = collect("\n\n\n\ny\nn\n", &existing);
    assert_eq!(answers.booths.len(), 1);
    assert_eq!(answers.booths[0].debug_token.as_deref(), Some("tok"));
}

#[test]
fn prompt_yes_no_reasks_and_writes_its_questions() {
    let mut output = String::new();
    let mut input = LineReader::new("maybe\r\n  YES \n");
    assert!(prompt_yes_no(&mut input, &mut output, "Continue?", false));
    assert_eq!(
        output,
        "Continue? [y/N]: Please answer y or n.\nContinue? [y/N]: "
    );
    assert_eq!(input.read_line(), None);
}

#[test]
fn line_prompts_fall_back_and_skip_blanks() {
    let mut output = String::new();
    let mut input = LineReader::new("\n  value  \n\n\nid\n");
    assert_eq!(prompt_line(&mut input, &mut output, "URL", "def"), "def");
    assert_eq!(prompt_optional(&mut input, &mut output, "Name").as_deref(), Some("value"));
    assert_eq!(prompt_optional(&mut input, &mut output, "Token"), None);
    assert_eq!(prompt_required(&mut input, &mut output, "Id").as_deref(), Some("id"));
    assert_eq!(prompt_required(&mut input, &mut output, "Id"), None);
    assert_eq!(
        output,
        "URL [def]: Name (optional): Token (optional): Id: A value is required.\nId: Id: "
    );
}

#[test]
fn prompt_theme_takes_names_and_numbers() {
    let mut output = String::new();
    let mut input = LineReader::new("0\nneon\n+7\n");
    assert_eq!(prompt_theme(&mut input, &mut output, "catppuccin-mocha"), "high-contrast");
    assert!(output.starts_with("Available colour themes:\n  1. catppuccin-mocha\n"));
    assert_eq!(output.matches("Please enter a listed theme name or number.").count(), 2);
    let mut by_name = LineReader::new("bell-canada\n");
    assert_eq!(prompt_theme(&mut by_name, &mut output, "x"), "bell-canada");
}

#[test]
fn parse_usize_matches_std() {
    for text in ["0", "42", "+7", "", "+", "-1", "4 ", "18446744073709551615", "18446744073709551616", "007"] {
        assert_eq!(parse_usize(text), text.parse::<usize>().ok(), "{text:?}");
    }
}
