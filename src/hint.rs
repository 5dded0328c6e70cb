use vstd::prelude::*;

verus! {

/// The native boolean for true.
pub const TRUE: i32 = 1;
/// The native boolean for false.
pub const FALSE: i32 = 0;

/// Native hint key: major version of the requested context.
pub const CONTEXT_VERSION_MAJOR: i32 = 0x00022002;
/// Native hint key: minor version of the requested context.
pub const CONTEXT_VERSION_MINOR: i32 = 0x00022003;
/// Native hint key: whether the context drops deprecated functionality.
pub const OPENGL_FORWARD_COMPAT: i32 = 0x00022006;
/// Native hint key: the profile of the requested context.
pub const OPENGL_PROFILE: i32 = 0x00022008;

/// Native profile value: any profile.
pub const OPENGL_ANY_PROFILE: i32 = 0;
/// Native profile value: the core profile.
pub const OPENGL_CORE_PROFILE: i32 = 0x00032001;
/// Native profile value: the compatibility profile.
pub const OPENGL_COMPAT_PROFILE: i32 = 0x00032002;

/// The profile of the context a window is created with.
#[derive(Clone, Copy, Debug, PartialEq, Eq, Structural)]
pub enum Profile {
    Any,
    Compat,
    Core,
}

/// One option for the windows created after it is set.
#[derive(Clone, Copy, Debug, PartialEq, Eq, Structural)]
pub enum WindowHint {
    ContextVersion(i32, i32),
    ForwardCompat(bool),
    OpenGlProfile(Profile),
}

/// The native value of a profile.
pub open spec fn profile_value(p: Profile) -> i32 {
    match p {
        Profile::Any => OPENGL_ANY_PROFILE,
        Profile::Compat => OPENGL_COMPAT_PROFILE,
        Profile::Core => OPENGL_CORE_PROFILE,
    }
}

/// The native value of a boolean.
pub open spec fn bool_value(b: bool) -> i32 {
    if b {
        TRUE
    } else {
        FALSE
    }
}

/// The native (key, value) settings a hint stands for, in the order they
/// are applied.
pub open spec fn settings_of(hint: WindowHint) -> Seq<(i32, i32)> {
    match hint {
        WindowHint::ContextVersion(major, minor) => seq![
            (CONTEXT_VERSION_MAJOR, major),
            (CONTEXT_VERSION_MINOR, minor),
        ],
        WindowHint::ForwardCompat(b) => seq![(OPENGL_FORWARD_COMPAT, bool_value(b))],
        WindowHint::OpenGlProfile(p) => seq![(OPENGL_PROFILE, profile_value(p))],
    }
}

impl Profile {
    /// The native value of this profile.
    pub fn value(self) -> (r: i32)
        ensures
            r == profile_value(self),
    {
        match self {
            Profile::Any => OPENGL_ANY_PROFILE,
            Profile::Compat => OPENGL_COMPAT_PROFILE,
            Profile::Core => OPENGL_CORE_PROFILE,
        }
    }
}

impl WindowHint {
    /// Translates this hint into the native settings it stands for.
    pub fn settings(self) -> (r: Vec<(i32, i32)>)
        ensures
            r@ == settings_of(self),
    {
        match self {
            WindowHint::ContextVersion(major, minor) => {
                vec![(CONTEXT_VERSION_MAJOR, major), (CONTEXT_VERSION_MINOR, minor)]
            },
            WindowHint::ForwardCompat(compat) => {
                if compat {
                    vec![(OPENGL_FORWARD_COMPAT, TRUE)]
                } else {
                    vec![(OPENGL_FORWARD_COMPAT, FALSE)]
                }
            },
            WindowHint::OpenGlProfile(profile) => vec![(OPENGL_PROFILE, profile.value())],
        }
    }
}

} // verus!
