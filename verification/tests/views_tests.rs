use portfolio::contact::SubmissionState;
use portfolio::content::{
    About, AboutSection, ContactForm, Education, Experience, Profile, Project, Resume,
    SkillCategory, Terms,
};
use portfolio::routes::Route;
use portfolio::views::{
    about_view, contact_view, privacy_view, projects_view, render_project, resume_view, sidebar,
    terms_view, ButtonFace, FormNotice, SidebarProps,
};
use portfolio::content::{LegalSection, Privacy};

fn profile_with(email: Option<&str>, linkedin: Option<&str>, github: Option<&str>) -> Profile {
    Profile {
        name: "john ronald doe".to_string(),
        title: "Engineer".to_string(),
        email: email.map(str::to_string),
        phone: None,
        linkedin: linkedin.map(str::to_string),
        github: github.map(str::to_string),
    }
}

#[test]
fn about_renders_one_tag_per_interest_and_nothing_empty() {
    let about = About {
        intro: "Hi".to_string(),
        sections: Vec::new(),
        interests: vec!["Rust".to_string()],
        values: Vec::new(),
    };
    let vm = about_view(about);
    assert_eq!(vm.intro, "Hi");
    assert!(vm.sections.is_empty());
    assert_eq!(vm.interests, Some(vec!["Rust".to_string()]));
    assert_eq!(vm.values, None);
}

#[test]
fn about_renders_sections_in_order() {
    let about = About {
        intro: "intro".to_string(),
        sections: vec![
            AboutSection { title: "first".to_string(), content: "a".to_string() },
            AboutSection { title: "second".to_string(), content: "b".to_string() },
        ],
        interests: Vec::new(),
        values: vec!["honesty".to_string()],
    };
    let vm = about_view(about);
    assert_eq!(vm.sections.len(), 2);
    assert_eq!(vm.sections[0].title, "first");
    assert_eq!(vm.sections[1].title, "second");
    assert_eq!(vm.interests, None);
    assert_eq!(vm.values, Some(vec!["honesty".to_string()]));
}

#[test]
fn resume_keeps_its_three_sections_independent() {
    let resume = Resume {
        experience: vec![Experience {
            position: "Dev".to_string(),
            company: "Acme".to_string(),
            duration: "2020-2022".to_string(),
            description: None,
            technologies: vec!["Rust".to_string(), "SQL".to_string()],
        }],
        education: vec![Education {
            degree: "BSc".to_string(),
            school: "State".to_string(),
            year: None,
            details: Some("honors".to_string()),
        }],
        skills: vec![SkillCategory {
            name: "Languages".to_string(),
            items: vec!["English".to_string()],
        }],
    };
    let vm = resume_view(resume);
    assert_eq!(vm.experiences.len(), 1);
    assert_eq!(vm.experiences[0].title, "Dev");
    assert_eq!(vm.experiences[0].duration_badge, "2020-2022");
    assert_eq!(vm.experiences[0].company, "Acme");
    assert_eq!(vm.experiences[0].description, None);
    assert_eq!(vm.experiences[0].tech_tags, vec!["Rust".to_string(), "SQL".to_string()]);
    assert_eq!(vm.educations.len(), 1);
    assert_eq!(vm.educations[0].title, "BSc");
    assert_eq!(vm.educations[0].year_badge, None);
    assert_eq!(vm.educations[0].details, Some("honors".to_string()));
    assert_eq!(vm.skill_groups.len(), 1);
    assert_eq!(vm.skill_groups[0].heading, "Languages");
    assert_eq!(vm.skill_groups[0].tags, vec!["English".to_string()]);
}

#[test]
fn project_card_shows_links_only_when_present() {
    let card = render_project(Project {
        name: "Site".to_string(),
        description: Some("a site".to_string()),
        keywords: vec!["web".to_string()],
        website: Some("https://example.com".to_string()),
        github: None,
        image: None,
        date: Some("2024".to_string()),
    });
    assert_eq!(card.title, "Site");
    assert_eq!(card.date_line, Some("2024".to_string()));
    assert_eq!(card.description, Some("a site".to_string()));
    assert_eq!(card.tech_tags, vec!["web".to_string()]);
    let link = card.website_link.expect("website link present");
    assert_eq!(link.href, "https://example.com");
    assert!(link.new_tab);
    assert!(card.source_link.is_none());
}

#[test]
fn projects_page_has_one_card_per_project_in_order() {
    let vm = projects_view(vec![
        Project {
            name: "first".to_string(),
            description: None,
            keywords: Vec::new(),
            website: None,
            github: Some("https://github.test/first".to_string()),
            image: None,
            date: None,
        },
        Project {
            name: "second".to_string(),
            description: None,
            keywords: Vec::new(),
            website: None,
            github: None,
            image: None,
            date: None,
        },
    ]);
    assert_eq!(vm.cards.len(), 2);
    assert_eq!(vm.cards[0].title, "first");
    assert!(vm.cards[0].source_link.is_some());
    assert_eq!(vm.cards[1].title, "second");
    assert!(vm.cards[1].source_link.is_none());
}

#[test]
fn legal_pages_show_title_date_and_sections() {
    let terms = terms_view(Terms {
        title: "Terms of Service".to_string(),
        effective_date: "2024-01-01".to_string(),
        sections: vec![LegalSection { title: "Scope".to_string(), content: "All".to_string() }],
    });
    assert_eq!(terms.title, "Terms of Service");
    assert_eq!(terms.effective_date, "2024-01-01");
    assert_eq!(terms.sections.len(), 1);
    let privacy = privacy_view(Privacy {
        title: "Privacy Policy".to_string(),
        effective_date: "2024-02-02".to_string(),
        sections: Vec::new(),
    });
    assert_eq!(privacy.title, "Privacy Policy");
    assert!(privacy.sections.is_empty());
}

#[test]
fn sidebar_uppercases_word_initials() {
    let vm = sidebar(SidebarProps {
        profile: profile_with(None, None, None),
        current_route: Route::About,
        is_mobile: false,
        is_open: true,
    });
    assert_eq!(vm.initials, "JRD");
    assert_eq!(vm.name, "john ronald doe");
    assert_eq!(vm.title, "Engineer");
}

#[test]
fn sidebar_initials_skip_extra_whitespace() {
    let mut profile = profile_with(None, None, None);
    profile.name = "  ada \t lovelace \n".to_string();
    let vm = sidebar(SidebarProps {
        profile,
        current_route: Route::About,
        is_mobile: false,
        is_open: true,
    });
    assert_eq!(vm.initials, "AL");
}

#[test]
fn sidebar_marks_only_the_current_route_active() {
    let vm = sidebar(SidebarProps {
        profile: profile_with(None, None, None),
        current_route: Route::Projects,
        is_mobile: true,
        is_open: false,
    });
    assert!(vm.mobile);
    assert!(!vm.open);
    let targets: Vec<Route> = vm.nav.iter().map(|e| e.target).collect();
    assert_eq!(targets, [Route::About, Route::Resume, Route::Projects, Route::Contact]);
    let actives: Vec<bool> = vm.nav.iter().map(|e| e.active).collect();
    assert_eq!(actives, [false, false, true, false]);
}

#[test]
fn sidebar_without_channels_has_no_get_in_touch_block() {
    let vm = sidebar(SidebarProps {
        profile: profile_with(None, None, None),
        current_route: Route::About,
        is_mobile: false,
        is_open: true,
    });
    assert!(vm.get_in_touch.is_none());
}

#[test]
fn sidebar_with_channels_links_each_present_one() {
    let vm = sidebar(SidebarProps {
        profile: profile_with(Some("j@doe.dev"), None, Some("https://github.test/j")),
        current_route: Route::About,
        is_mobile: false,
        is_open: true,
    });
    let block = vm.get_in_touch.expect("block present");
    let email = block.email.expect("email link");
    assert_eq!(email.href, "mailto:j@doe.dev");
    assert!(block.linkedin.is_none());
    let github = block.github.expect("github link");
    assert_eq!(github.href, "https://github.test/j");
    assert!(github.new_tab);
}

#[test]
fn contact_page_without_channels_shows_no_method_cards() {
    let vm = contact_view(
        profile_with(None, None, None),
        ContactForm::default(),
        SubmissionState::Idle,
        false,
    );
    assert!(vm.form.is_none());
    let methods = vm.methods.expect("methods grid present");
    assert!(methods.email.is_none());
    assert!(methods.linkedin.is_none());
    assert!(methods.github.is_none());
}

#[test]
fn contact_page_cards_follow_the_profile() {
    let vm = contact_view(
        profile_with(Some("a@b.c"), Some("https://linkedin.test/j"), None),
        ContactForm::default(),
        SubmissionState::Idle,
        false,
    );
    let methods = vm.methods.unwrap();
    assert_eq!(methods.email.unwrap().href, "mailto:a@b.c");
    let linkedin = methods.linkedin.unwrap();
    assert_eq!(linkedin.href, "https://linkedin.test/j");
    assert!(linkedin.new_tab);
    assert!(methods.github.is_none());
}

#[test]
fn enabled_form_mirrors_fields_and_status() {
    let form = ContactForm {
        name: "n".to_string(),
        email: "e".to_string(),
        phone: "p".to_string(),
        message: "m".to_string(),
    };
    let vm = contact_view(
        profile_with(None, None, None),
        form,
        SubmissionState::Submitting,
        true,
    );
    assert!(vm.methods.is_none());
    let f = vm.form.expect("form present");
    assert_eq!(f.name, "n");
    assert_eq!(f.email, "e");
    assert_eq!(f.phone, "p");
    assert_eq!(f.message, "m");
    assert!(f.submit_disabled);
    assert_eq!(f.button, ButtonFace::Sending);
    assert!(matches!(f.notice, FormNotice::Hidden));
}

#[test]
fn enabled_form_shows_the_error_text() {
    let vm = contact_view(
        profile_with(None, None, None),
        ContactForm::default(),
        SubmissionState::Error("Server error: 500".to_string()),
        true,
    );
    let f = vm.form.unwrap();
    assert!(!f.submit_disabled);
    assert_eq!(f.button, ButtonFace::Retry);
    match f.notice {
        FormNotice::ErrorText(text) => assert_eq!(text, "Server error: 500"),
        _ => panic!("expected the error text"),
    }
}

#[test]
fn enabled_form_shows_the_success_notice() {
    let vm = contact_view(
        profile_with(None, None, None),
        ContactForm::default(),
        SubmissionState::Success,
        true,
    );
    let f = vm.form.unwrap();
    assert_eq!(f.button, ButtonFace::Sent);
    assert!(matches!(f.notice, FormNotice::SuccessText));
}

#[test]
fn show_get_in_touch_follows_the_channels() {
    assert!(!profile_with(None, None, None).show_get_in_touch());
    assert!(profile_with(Some("a@b.c"), None, None).show_get_in_touch());
    assert!(profile_with(None, Some("l"), None).show_get_in_touch());
    assert!(profile_with(None, None, Some("g")).show_get_in_touch());
    let mut with_phone = profile_with(None, None, None);
    with_phone.phone = Some("+1".to_string());
    assert!(!with_phone.show_get_in_touch());
}
