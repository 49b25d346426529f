//! The settings of a run, taken from the process environment.

use vstd::prelude::*;
use crate::error::{exit_code_of, EnrolError, EnrolErrorView};

verus! {

/// Command-line arguments.
#[derive(Clone, Copy, Debug, PartialEq, Eq)]
pub struct Args {
    /// Delete the user after enrolment.
    pub delete_user: bool,
}

/// The environment variables that a run requires.
#[derive(Clone, Copy, Debug, PartialEq, Eq, Structural)]
pub enum Variable {
    Region,
    ImageSource,
    ImagePath,
    SpKey,
    SpSecret,
    OauthUsername,
    OauthPw,
}

/// The name under which a variable stands in the environment.
pub open spec fn name_of(variable: Variable) -> Seq<char> {
    match variable {
        Variable::Region => "REGION"@,
        Variable::ImageSource => "IMAGE_SOURCE"@,
        Variable::ImagePath => "IMAGE_PATH"@,
        Variable::SpKey => "SP_KEY"@,
        Variable::SpSecret => "SP_SECRET"@,
        Variable::OauthUsername => "OAUTH_USERNAME"@,
        Variable::OauthPw => "OAUTH_PW"@,
    }
}

impl Variable {
    /// The name of this variable in the environment.
    pub fn name(&self) -> (text: &'static str)
        ensures
            text@ == name_of(*self),
    {
        match self {
            Variable::Region => "REGION",
            Variable::ImageSource => "IMAGE_SOURCE",
            Variable::ImagePath => "IMAGE_PATH",
            Variable::SpKey => "SP_KEY",
            Variable::SpSecret => "SP_SECRET",
            Variable::OauthUsername => "OAUTH_USERNAME",
            Variable::OauthPw => "OAUTH_PW",
        }
    }
}

/// What looking up each required variable gave: `None` where it is unset.
#[derive(Clone, Debug, PartialEq, Eq)]
pub struct Environment {
    pub region: Option<String>,
    pub image_source: Option<String>,
    pub image_path: Option<String>,
    pub sp_key: Option<String>,
    pub sp_secret: Option<String>,
    pub oauth_username: Option<String>,
    pub oauth_pw: Option<String>,
}

impl Environment {
    /// The value found for a variable.
    pub open spec fn value(&self, variable: Variable) -> Option<Seq<char>> {
        match variable {
            Variable::Region => self.region.deep_view(),
            Variable::ImageSource => self.image_source.deep_view(),
            Variable::ImagePath => self.image_path.deep_view(),
            Variable::SpKey => self.sp_key.deep_view(),
            Variable::SpSecret => self.sp_secret.deep_view(),
            Variable::OauthUsername => self.oauth_username.deep_view(),
            Variable::OauthPw => self.oauth_pw.deep_view(),
        }
    }

    /// Every required variable is set.
    pub open spec fn complete(&self) -> bool {
        forall|variable: Variable| (#[trigger] self.value(variable)) is Some
    }

    /// The first variable, in the order in which they are read, that is not
    /// set.
    pub open spec fn first_missing(&self) -> Option<Variable> {
        if self.region is None {
            Some(Variable::Region)
        } else if self.image_source is None {
            Some(Variable::ImageSource)
        } else if self.image_path is None {
            Some(Variable::ImagePath)
        } else if self.sp_key is None {
            Some(Variable::SpKey)
        } else if self.sp_secret is None {
            Some(Variable::SpSecret)
        } else if self.oauth_username is None {
            Some(Variable::OauthUsername)
        } else if self.oauth_pw is None {
            Some(Variable::OauthPw)
        } else {
            None
        }
    }
}

/// The settings of a run. They are fixed once loaded; what they hold is not
/// looked at here, a wrong path or key shows when it is used.
#[derive(Clone, Debug, PartialEq, Eq)]
pub struct Settings {
    /// Region subdomain of every endpoint.
    pub region: String,
    /// Label sent with the photo that says where it came from.
    pub img_src: String,
    /// Path of the photo on the local file system.
    pub img_path: String,
    /// API key of the service provider.
    pub sp_key: String,
    /// API secret of the service provider.
    pub sp_secret: String,
    /// OAuth user name, for deletion.
    pub oa_username: String,
    /// OAuth password, for deletion.
    pub oa_pw: String,
}

/// Settings as a mathematical value.
pub struct SettingsView {
    pub region: Seq<char>,
    pub img_src: Seq<char>,
    pub img_path: Seq<char>,
    pub sp_key: Seq<char>,
    pub sp_secret: Seq<char>,
    pub oa_username: Seq<char>,
    pub oa_pw: Seq<char>,
}

impl View for Settings {
    type V = SettingsView;

    open spec fn view(&self) -> SettingsView {
        SettingsView {
            region: self.region@,
            img_src: self.img_src@,
            img_path: self.img_path@,
            sp_key: self.sp_key@,
            sp_secret: self.sp_secret@,
            oa_username: self.oa_username@,
            oa_pw: self.oa_pw@,
        }
    }
}

/// The settings that a complete environment gives.
pub open spec fn settings_of(env: Environment) -> SettingsView {
    SettingsView {
        region: env.value(Variable::Region)->0,
        img_src: env.value(Variable::ImageSource)->0,
        img_path: env.value(Variable::ImagePath)->0,
        sp_key: env.value(Variable::SpKey)->0,
        sp_secret: env.value(Variable::SpSecret)->0,
        oa_username: env.value(Variable::OauthUsername)->0,
        oa_pw: env.value(Variable::OauthPw)->0,
    }
}

/// What loading gives: the settings, or the first variable that is missing.
pub open spec fn loaded_from(env: Environment) -> Result<SettingsView, EnrolErrorView> {
    match env.first_missing() {
        Some(variable) => Err(EnrolErrorView::MissingVariable { variable }),
        None => Ok(settings_of(env)),
    }
}

impl Settings {
    /// Builds the settings out of what the environment held. All seven
    /// variables are required: the first one that is unset, in reading order,
    /// is reported, and nothing is built from a partial environment.
    pub fn from_env(env: Environment) -> (loaded: Result<Settings, EnrolError>)
        ensures
            loaded matches Ok(settings) ==> loaded_from(env) == Ok::<SettingsView, EnrolErrorView>(
                settings@,
            ),
            loaded matches Err(error) ==> loaded_from(env) == Err::<SettingsView, EnrolErrorView>(
                error@,
            ),
    {
        let region = match env.region {
            Some(value) => value,
            None => return Err(EnrolError::MissingVariable { variable: Variable::Region }),
        };
        let img_src = match env.image_source {
            Some(value) => value,
            None => return Err(EnrolError::MissingVariable { variable: Variable::ImageSource }),
        };
        let img_path = match env.image_path {
            Some(value) => value,
            None => return Err(EnrolError::MissingVariable { variable: Variable::ImagePath }),
        };
        let sp_key = match env.sp_key {
            Some(value) => value,
            None => return Err(EnrolError::MissingVariable { variable: Variable::SpKey }),
        };
        let sp_secret = match env.sp_secret {
            Some(value) => value,
            None => return Err(EnrolError::MissingVariable { variable: Variable::SpSecret }),
        };
        let oa_username = match env.oauth_username {
            Some(value) => value,
            None => return Err(EnrolError::MissingVariable { variable: Variable::OauthUsername }),
        };
        let oa_pw = match env.oauth_pw {
            Some(value) => value,
            None => return Err(EnrolError::MissingVariable { variable: Variable::OauthPw }),
        };
        Ok(Settings { region, img_src, img_path, sp_key, sp_secret, oa_username, oa_pw })
    }
}

/// Loading fails exactly when some required variable is unset. The variable
/// it then reports is unset, and the code with which the process leaves is
/// not zero: with a partial environment there are no settings, so no run and
/// no request.
pub proof fn missing_variable_fails_loading(env: Environment)
    ensures
        loaded_from(env) is Ok <==> env.complete(),
        loaded_from(env) is Err <==> exists|variable: Variable|
            (#[trigger] env.value(variable)) is None,
        loaded_from(env) matches Err(error) ==> {
            &&& error matches EnrolErrorView::MissingVariable { variable }
            &&& env.value(variable) is None
            &&& exit_code_of(error) != 0
        },
{
}

} // verus!
