//! Where the engine keeps its tools, for each platform that it runs on.
use vstd::prelude::*;

verus! {

/// A platform that the engine runs on.
#[derive(Clone, Copy, Debug, PartialEq, Eq, Structural)]
pub enum Platform {
    Windows,
    Linux,
    Mac,
}

/// The editor's executable, relative to the engine's root.
pub open spec fn editor_rel(p: Platform) -> Seq<char> {
    match p {
        Platform::Windows => "Engine/Binaries/Win64/UnrealEditor.exe"@,
        Platform::Mac => "Engine/Binaries/Mac/UnrealEditor.app/Contents/MacOS/UnrealEditor"@,
        Platform::Linux => "Engine/Binaries/Linux/UnrealEditor"@,
    }
}

/// The build script, relative to the engine's root.
pub open spec fn build_script_rel(p: Platform) -> Seq<char> {
    match p {
        Platform::Windows => "Engine/Build/BatchFiles/Build.bat"@,
        Platform::Mac => "Engine/Build/BatchFiles/Mac/Build.sh"@,
        Platform::Linux => "Engine/Build/BatchFiles/Linux/Build.sh"@,
    }
}

/// The automation tool's script, relative to the engine's root.
pub open spec fn uat_script_rel(p: Platform) -> Seq<char> {
    match p {
        Platform::Windows => "Engine/Build/BatchFiles/RunUAT.bat"@,
        _ => "Engine/Build/BatchFiles/RunUAT.sh"@,
    }
}

/// The character that the platform puts between the parts of a path.
pub open spec fn separator_of(p: Platform) -> char {
    match p {
        Platform::Windows => '\\',
        _ => '/',
    }
}

impl Platform {
    /// The editor's executable, relative to the engine's root.
    pub fn editor(&self) -> (r: &'static str)
        ensures
            r@ == editor_rel(*self),
    {
        match self {
            Platform::Windows => "Engine/Binaries/Win64/UnrealEditor.exe",
            Platform::Mac => "Engine/Binaries/Mac/UnrealEditor.app/Contents/MacOS/UnrealEditor",
            Platform::Linux => "Engine/Binaries/Linux/UnrealEditor",
        }
    }

    /// The build script, relative to the engine's root.
    pub fn build_script(&self) -> (r: &'static str)
        ensures
            r@ == build_script_rel(*self),
    {
        match self {
            Platform::Windows => "Engine/Build/BatchFiles/Build.bat",
            Platform::Mac => "Engine/Build/BatchFiles/Mac/Build.sh",
            Platform::Linux => "Engine/Build/BatchFiles/Linux/Build.sh",
        }
    }

    /// The automation tool's script, relative to the engine's root.
    pub fn uat_script(&self) -> (r: &'static str)
        ensures
            r@ == uat_script_rel(*self),
    {
        match self {
            Platform::Windows => "Engine/Build/BatchFiles/RunUAT.bat",
            _ => "Engine/Build/BatchFiles/RunUAT.sh",
        }
    }

    /// The character that the platform puts between the parts of a path.
    pub fn separator(&self) -> (r: char)
        ensures
            r == separator_of(*self),
    {
        match self {
            Platform::Windows => '\\',
            _ => '/',
        }
    }
}

} // verus!
