//! Typed records for the bundled content documents.
//!
//! Every page of the site is rendered from one of these records. They are
//! loaded once at startup and never mutated; the only load-time rule that
//! goes beyond field-for-field reading is the ordering of the project
//! list, which lives in [`crate::order`].

use vstd::prelude::*;

verus! {

/// Identity card shown in the sidebar header, with the optional contact
/// channels the site may link to.
#[derive(Clone, Debug, PartialEq)]
pub struct Profile {
    pub name: String,
    pub title: String,
    pub email: Option<String>,
    pub phone: Option<String>,
    pub linkedin: Option<String>,
    pub github: Option<String>,
}

impl Profile {
    /// A profile can be contacted when it carries an email address, a
    /// LinkedIn link or a GitHub link. Every piece of contact UI — the
    /// sidebar "get in touch" block and the contact-method cards — derives
    /// its visibility from this one predicate.
    pub open spec fn has_any_contact_channel(&self) -> bool {
        self.email is Some || self.linkedin is Some || self.github is Some
    }

    pub fn show_get_in_touch(&self) -> (r: bool)
        ensures
            r == self.has_any_contact_channel(),
    {
        self.email.is_some() || self.linkedin.is_some() || self.github.is_some()
    }
}

/// One titled block of prose on the About page.
#[derive(Clone, Debug, PartialEq)]
pub struct AboutSection {
    pub title: String,
    pub content: String,
}

/// Content of the About page: an introduction, ordered prose sections,
/// interest tags and value statements.
#[derive(Clone, Debug, PartialEq)]
pub struct About {
    pub intro: String,
    pub sections: Vec<AboutSection>,
    pub interests: Vec<String>,
    pub values: Vec<String>,
}

/// One employment entry on the resume.
#[derive(Clone, Debug, PartialEq)]
pub struct Experience {
    pub position: String,
    pub company: String,
    pub duration: String,
    pub description: Option<String>,
    pub technologies: Vec<String>,
}

/// One education entry on the resume.
#[derive(Clone, Debug, PartialEq)]
pub struct Education {
    pub degree: String,
    pub school: String,
    pub year: Option<String>,
    pub details: Option<String>,
}

/// A named group of skills, displayed as one block.
#[derive(Clone, Debug, PartialEq)]
pub struct SkillCategory {
    pub name: String,
    pub items: Vec<String>,
}

/// Content of the Resume page: three independent repeated sections.
#[derive(Clone, Debug, PartialEq)]
pub struct Resume {
    pub experience: Vec<Experience>,
    pub education: Vec<Education>,
    pub skills: Vec<SkillCategory>,
}

/// One portfolio project. The list of projects is shown newest first;
/// a project without a date sorts after every dated one.
#[derive(Clone, Debug, PartialEq)]
pub struct Project {
    pub name: String,
    pub description: Option<String>,
    pub keywords: Vec<String>,
    pub website: Option<String>,
    pub github: Option<String>,
    pub image: Option<String>,
    pub date: Option<String>,
}

/// One titled section of a legal document.
#[derive(Clone, Debug, PartialEq)]
pub struct LegalSection {
    pub title: String,
    pub content: String,
}

/// The terms-of-service document.
#[derive(Clone, Debug, PartialEq)]
pub struct Terms {
    pub title: String,
    pub effective_date: String,
    pub sections: Vec<LegalSection>,
}

/// The privacy-policy document.
#[derive(Clone, Debug, PartialEq)]
pub struct Privacy {
    pub title: String,
    pub effective_date: String,
    pub sections: Vec<LegalSection>,
}

/// The four text fields of the contact form, as currently typed in.
#[derive(Clone, Debug, PartialEq)]
pub struct ContactForm {
    pub name: String,
    pub email: String,
    pub phone: String,
    pub message: String,
}

impl ContactForm {
    /// All four fields hold the empty string.
    pub open spec fn is_blank(&self) -> bool {
        &&& self.name@ == Seq::<char>::empty()
        &&& self.email@ == Seq::<char>::empty()
        &&& self.phone@ == Seq::<char>::empty()
        &&& self.message@ == Seq::<char>::empty()
    }
}

impl Default for ContactForm {
    /// The form starts out, and is reset to, all-empty.
    fn default() -> (r: Self)
        ensures
            r.is_blank(),
    {
        ContactForm {
            name: String::new(),
            email: String::new(),
            phone: String::new(),
            message: String::new(),
        }
    }
}

} // verus!
