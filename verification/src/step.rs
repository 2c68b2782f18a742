//! The steps: the closed set of integrations that a run can perform.

use vstd::prelude::*;

verus! {

/// One integration that a run may perform.
///
/// The declaration order is the order of the steps, and the order in which they
/// are iterated.
#[derive(Clone, Copy, Debug, PartialEq, Eq, PartialOrd, Ord, Hash, Structural)]
pub enum Step {
    AM,
    AndroidStudio,
    AppMan,
    Aqua,
    Asdf,
    Atom,
    Audit,
    AutoCpufreq,
    Bin,
    Bob,
    BrewCask,
    BrewFormula,
    Bun,
    BunPackages,
    Cargo,
    Certbot,
    Chezmoi,
    Chocolatey,
    Choosenim,
    CinnamonSpices,
    ClamAvDb,
    Composer,
    Conda,
    ConfigUpdate,
    Containers,
    CustomCommands,
    DebGet,
    Deno,
    Distrobox,
    DkpPacman,
    Dotnet,
    Elan,
    Emacs,
    Firmware,
    Flatpak,
    Flutter,
    Fossil,
    Gcloud,
    Gem,
    Ghcup,
    GitRepos,
    GithubCliExtensions,
    GnomeShellExtensions,
    Go,
    Guix,
    Haxelib,
    Helix,
    Helm,
    HomeManager,
    // Capitalised as one word each, so that the name reads `jetbrains_pycharm`
    // and not `jet_brains_py_charm`.
    JetbrainsAqua,
    JetbrainsClion,
    JetbrainsDatagrip,
    JetbrainsDataspell,
    JetbrainsGateway,
    JetbrainsGoland,
    JetbrainsIdea,
    JetbrainsMps,
    JetbrainsPhpstorm,
    JetbrainsPycharm,
    JetbrainsRider,
    JetbrainsRubymine,
    JetbrainsRustrover,
    JetbrainsToolbox,
    JetbrainsWebstorm,
    Jetpack,
    Julia,
    Juliaup,
    Kakoune,
    Krew,
    Lensfun,
    Lure,
    Macports,
    Mamba,
    Mas,
    Maza,
    Micro,
    MicrosoftStore,
    Miktex,
    Mise,
    Myrepos,
    Nix,
    Node,
    Opam,
    Pacdef,
    Pacstall,
    Pearl,
    Pip3,
    PipReview,
    PipReviewLocal,
    Pipupgrade,
    Pipx,
    Pipxu,
    Pixi,
    Pkg,
    Pkgin,
    PlatformioCore,
    Pnpm,
    Poetry,
    Powershell,
    Protonup,
    Pyenv,
    Raco,
    Rcm,
    Remotes,
    Restarts,
    Rtcl,
    RubyGems,
    Rustup,
    Rye,
    Scoop,
    Sdkman,
    SelfUpdate,
    Sheldon,
    Shell,
    Snap,
    Sparkle,
    Spicetify,
    Stack,
    Stew,
    System,
    Tldr,
    Tlmgr,
    Tmux,
    Toolbx,
    Uv,
    Vagrant,
    Vcpkg,
    Vim,
    VoltaPackages,
    Vscode,
    Vscodium,
    Waydroid,
    Winget,
    Wsl,
    WslUpdate,
    Xcodes,
    Yadm,
    Yarn,
    Yazi,
    Zigup,
    Zvm,
}

/// The character of a name at a position, or a blank where the name ends
/// before it.
spec fn letter(name: Seq<char>, position: int) -> char {
    if position < name.len() {
        name[position]
    } else {
        ' '
    }
}

/// The length of a name and four of its characters.
spec fn mark(name: Seq<char>) -> (nat, char, char, char, char) {
    (name.len(), letter(name, 1), letter(name, 2), letter(name, 3), letter(name, 10))
}

impl Step {
    /// How many steps there are.
    pub const COUNT: usize = 141;

    /// The position of the step in the declaration order.
    pub open spec fn ordinal(self) -> nat {
        match self {
            Step::AM => 0,
            Step::AndroidStudio => 1,
            Step::AppMan => 2,
            Step::Aqua => 3,
            Step::Asdf => 4,
            Step::Atom => 5,
            Step::Audit => 6,
            Step::AutoCpufreq => 7,
            Step::Bin => 8,
            Step::Bob => 9,
            Step::BrewCask => 10,
            Step::BrewFormula => 11,
            Step::Bun => 12,
            Step::BunPackages => 13,
            Step::Cargo => 14,
            Step::Certbot => 15,
            Step::Chezmoi => 16,
            Step::Chocolatey => 17,
            Step::Choosenim => 18,
            Step::CinnamonSpices => 19,
            Step::ClamAvDb => 20,
            Step::Composer => 21,
            Step::Conda => 22,
            Step::ConfigUpdate => 23,
            Step::Containers => 24,
            Step::CustomCommands => 25,
            Step::DebGet => 26,
            Step::Deno => 27,
            Step::Distrobox => 28,
            Step::DkpPacman => 29,
            Step::Dotnet => 30,
            Step::Elan => 31,
            Step::Emacs => 32,
            Step::Firmware => 33,
            Step::Flatpak => 34,
            Step::Flutter => 35,
            Step::Fossil => 36,
            Step::Gcloud => 37,
            Step::Gem => 38,
            Step::Ghcup => 39,
            Step::GitRepos => 40,
            Step::GithubCliExtensions => 41,
            Step::GnomeShellExtensions => 42,
            Step::Go => 43,
            Step::Guix => 44,
            Step::Haxelib => 45,
            Step::Helix => 46,
            Step::Helm => 47,
            Step::HomeManager => 48,
            Step::JetbrainsAqua => 49,
            Step::JetbrainsClion => 50,
            Step::JetbrainsDatagrip => 51,
            Step::JetbrainsDataspell => 52,
            Step::JetbrainsGateway => 53,
            Step::JetbrainsGoland => 54,
            Step::JetbrainsIdea => 55,
            Step::JetbrainsMps => 56,
            Step::JetbrainsPhpstorm => 57,
            Step::JetbrainsPycharm => 58,
            Step::JetbrainsRider => 59,
            Step::JetbrainsRubymine => 60,
            Step::JetbrainsRustrover => 61,
            Step::JetbrainsToolbox => 62,
            Step::JetbrainsWebstorm => 63,
            Step::Jetpack => 64,
            Step::Julia => 65,
            Step::Juliaup => 66,
            Step::Kakoune => 67,
            Step::Krew => 68,
            Step::Lensfun => 69,
            Step::Lure => 70,
            Step::Macports => 71,
            Step::Mamba => 72,
            Step::Mas => 73,
            Step::Maza => 74,
            Step::Micro => 75,
            Step::MicrosoftStore => 76,
            Step::Miktex => 77,
            Step::Mise => 78,
            Step::Myrepos => 79,
            Step::Nix => 80,
            Step::Node => 81,
            Step::Opam => 82,
            Step::Pacdef => 83,
            Step::Pacstall => 84,
            Step::Pearl => 85,
            Step::Pip3 => 86,
            Step::PipReview => 87,
            Step::PipReviewLocal => 88,
            Step::Pipupgrade => 89,
            Step::Pipx => 90,
            Step::Pipxu => 91,
            Step::Pixi => 92,
            Step::Pkg => 93,
            Step::Pkgin => 94,
            Step::PlatformioCore => 95,
            Step::Pnpm => 96,
            Step::Poetry => 97,
            Step::Powershell => 98,
            Step::Protonup => 99,
            Step::Pyenv => 100,
            Step::Raco => 101,
            Step::Rcm => 102,
            Step::Remotes => 103,
            Step::Restarts => 104,
            Step::Rtcl => 105,
            Step::RubyGems => 106,
            Step::Rustup => 107,
            Step::Rye => 108,
            Step::Scoop => 109,
            Step::Sdkman => 110,
            Step::SelfUpdate => 111,
            Step::Sheldon => 112,
            Step::Shell => 113,
            Step::Snap => 114,
            Step::Sparkle => 115,
            Step::Spicetify => 116,
            Step::Stack => 117,
            Step::Stew => 118,
            Step::System => 119,
            Step::Tldr => 120,
            Step::Tlmgr => 121,
            Step::Tmux => 122,
            Step::Toolbx => 123,
            Step::Uv => 124,
            Step::Vagrant => 125,
            Step::Vcpkg => 126,
            Step::Vim => 127,
            Step::VoltaPackages => 128,
            Step::Vscode => 129,
            Step::Vscodium => 130,
            Step::Waydroid => 131,
            Step::Winget => 132,
            Step::Wsl => 133,
            Step::WslUpdate => 134,
            Step::Xcodes => 135,
            Step::Yadm => 136,
            Step::Yarn => 137,
            Step::Yazi => 138,
            Step::Zigup => 139,
            Step::Zvm => 140,
        }
    }

    /// The step at a position of the declaration order.
    pub open spec fn with_ordinal(position: int) -> Step {
        choose|step: Step| step.ordinal() == position
    }

    /// Every step once, in declaration order.
    pub open spec fn universe() -> Seq<Step> {
        Seq::new(Step::COUNT as nat, |position: int| Step::with_ordinal(position))
    }

    /// The name by which the step is written on the command line.
    pub open spec fn spec_name(self) -> Seq<char> {
        match self {
            Step::AM => "am"@,
            Step::AndroidStudio => "android_studio"@,
            Step::AppMan => "app_man"@,
            Step::Aqua => "aqua"@,
            Step::Asdf => "asdf"@,
            Step::Atom => "atom"@,
            Step::Audit => "audit"@,
            Step::AutoCpufreq => "auto_cpufreq"@,
            Step::Bin => "bin"@,
            Step::Bob => "bob"@,
            Step::BrewCask => "brew_cask"@,
            Step::BrewFormula => "brew_formula"@,
            Step::Bun => "bun"@,
            Step::BunPackages => "bun_packages"@,
            Step::Cargo => "cargo"@,
            Step::Certbot => "certbot"@,
            Step::Chezmoi => "chezmoi"@,
            Step::Chocolatey => "chocolatey"@,
            Step::Choosenim => "choosenim"@,
            Step::CinnamonSpices => "cinnamon_spices"@,
            Step::ClamAvDb => "clam_av_db"@,
            Step::Composer => "composer"@,
            Step::Conda => "conda"@,
            Step::ConfigUpdate => "config_update"@,
            Step::Containers => "containers"@,
            Step::CustomCommands => "custom_commands"@,
            Step::DebGet => "deb_get"@,
            Step::Deno => "deno"@,
            Step::Distrobox => "distrobox"@,
            Step::DkpPacman => "dkp_pacman"@,
            Step::Dotnet => "dotnet"@,
            Step::Elan => "elan"@,
            Step::Emacs => "emacs"@,
            Step::Firmware => "firmware"@,
            Step::Flatpak => "flatpak"@,
            Step::Flutter => "flutter"@,
            Step::Fossil => "fossil"@,
            Step::Gcloud => "gcloud"@,
            Step::Gem => "gem"@,
            Step::Ghcup => "ghcup"@,
            Step::GitRepos => "git_repos"@,
            Step::GithubCliExtensions => "github_cli_extensions"@,
            Step::GnomeShellExtensions => "gnome_shell_extensions"@,
            Step::Go => "go"@,
            Step::Guix => "guix"@,
            Step::Haxelib => "haxelib"@,
            Step::Helix => "helix"@,
            Step::Helm => "helm"@,
            Step::HomeManager => "home_manager"@,
            Step::JetbrainsAqua => "jetbrains_aqua"@,
            Step::JetbrainsClion => "jetbrains_clion"@,
            Step::JetbrainsDatagrip => "jetbrains_datagrip"@,
            Step::JetbrainsDataspell => "jetbrains_dataspell"@,
            Step::JetbrainsGateway => "jetbrains_gateway"@,
            Step::JetbrainsGoland => "jetbrains_goland"@,
            Step::JetbrainsIdea => "jetbrains_idea"@,
            Step::JetbrainsMps => "jetbrains_mps"@,
            Step::JetbrainsPhpstorm => "jetbrains_phpstorm"@,
            Step::JetbrainsPycharm => "jetbrains_pycharm"@,
            Step::JetbrainsRider => "jetbrains_rider"@,
            Step::JetbrainsRubymine => "jetbrains_rubymine"@,
            Step::JetbrainsRustrover => "jetbrains_rustrover"@,
            Step::JetbrainsToolbox => "jetbrains_toolbox"@,
            Step::JetbrainsWebstorm => "jetbrains_webstorm"@,
            Step::Jetpack => "jetpack"@,
            Step::Julia => "julia"@,
            Step::Juliaup => "juliaup"@,
            Step::Kakoune => "kakoune"@,
            Step::Krew => "krew"@,
            Step::Lensfun => "lensfun"@,
            Step::Lure => "lure"@,
            Step::Macports => "macports"@,
            Step::Mamba => "mamba"@,
            Step::Mas => "mas"@,
            Step::Maza => "maza"@,
            Step::Micro => "micro"@,
            Step::MicrosoftStore => "microsoft_store"@,
            Step::Miktex => "miktex"@,
            Step::Mise => "mise"@,
            Step::Myrepos => "myrepos"@,
            Step::Nix => "nix"@,
            Step::Node => "node"@,
            Step::Opam => "opam"@,
            Step::Pacdef => "pacdef"@,
            Step::Pacstall => "pacstall"@,
            Step::Pearl => "pearl"@,
            Step::Pip3 => "pip3"@,
            Step::PipReview => "pip_review"@,
            Step::PipReviewLocal => "pip_review_local"@,
            Step::Pipupgrade => "pipupgrade"@,
            Step::Pipx => "pipx"@,
            Step::Pipxu => "pipxu"@,
            Step::Pixi => "pixi"@,
            Step::Pkg => "pkg"@,
            Step::Pkgin => "pkgin"@,
            Step::PlatformioCore => "platformio_core"@,
            Step::Pnpm => "pnpm"@,
            Step::Poetry => "poetry"@,
            Step::Powershell => "powershell"@,
            Step::Protonup => "protonup"@,
            Step::Pyenv => "pyenv"@,
            Step::Raco => "raco"@,
            Step::Rcm => "rcm"@,
            Step::Remotes => "remotes"@,
            Step::Restarts => "restarts"@,
            Step::Rtcl => "rtcl"@,
            Step::RubyGems => "ruby_gems"@,
            Step::Rustup => "rustup"@,
            Step::Rye => "rye"@,
            Step::Scoop => "scoop"@,
            Step::Sdkman => "sdkman"@,
            Step::SelfUpdate => "self_update"@,
            Step::Sheldon => "sheldon"@,
            Step::Shell => "shell"@,
            Step::Snap => "snap"@,
            Step::Sparkle => "sparkle"@,
            Step::Spicetify => "spicetify"@,
            Step::Stack => "stack"@,
            Step::Stew => "stew"@,
            Step::System => "system"@,
            Step::Tldr => "tldr"@,
            Step::Tlmgr => "tlmgr"@,
            Step::Tmux => "tmux"@,
            Step::Toolbx => "toolbx"@,
            Step::Uv => "uv"@,
            Step::Vagrant => "vagrant"@,
            Step::Vcpkg => "vcpkg"@,
            Step::Vim => "vim"@,
            Step::VoltaPackages => "volta_packages"@,
            Step::Vscode => "vscode"@,
            Step::Vscodium => "vscodium"@,
            Step::Waydroid => "waydroid"@,
            Step::Winget => "winget"@,
            Step::Wsl => "wsl"@,
            Step::WslUpdate => "wsl_update"@,
            Step::Xcodes => "xcodes"@,
            Step::Yadm => "yadm"@,
            Step::Yarn => "yarn"@,
            Step::Yazi => "yazi"@,
            Step::Zigup => "zigup"@,
            Step::Zvm => "zvm"@,
        }
    }

    /// The step at `position` of the declaration order, if there is one.
    pub fn from_ordinal(position: usize) -> (found: Option<Step>)
        ensures
            match found {
                Some(step) => step.ordinal() == position,
                None => position >= Step::COUNT,
            },
    {
        match position {
            0 => Some(Step::AM),
            1 => Some(Step::AndroidStudio),
            2 => Some(Step::AppMan),
            3 => Some(Step::Aqua),
            4 => Some(Step::Asdf),
            5 => Some(Step::Atom),
            6 => Some(Step::Audit),
            7 => Some(Step::AutoCpufreq),
            8 => Some(Step::Bin),
            9 => Some(Step::Bob),
            10 => Some(Step::BrewCask),
            11 => Some(Step::BrewFormula),
            12 => Some(Step::Bun),
            13 => Some(Step::BunPackages),
            14 => Some(Step::Cargo),
            15 => Some(Step::Certbot),
            16 => Some(Step::Chezmoi),
            17 => Some(Step::Chocolatey),
            18 => Some(Step::Choosenim),
            19 => Some(Step::CinnamonSpices),
            20 => Some(Step::ClamAvDb),
            21 => Some(Step::Composer),
            22 => Some(Step::Conda),
            23 => Some(Step::ConfigUpdate),
            24 => Some(Step::Containers),
            25 => Some(Step::CustomCommands),
            26 => Some(Step::DebGet),
            27 => Some(Step::Deno),
            28 => Some(Step::Distrobox),
            29 => Some(Step::DkpPacman),
            30 => Some(Step::Dotnet),
            31 => Some(Step::Elan),
            32 => Some(Step::Emacs),
            33 => Some(Step::Firmware),
            34 => Some(Step::Flatpak),
            35 => Some(Step::Flutter),
            36 => Some(Step::Fossil),
            37 => Some(Step::Gcloud),
            38 => Some(Step::Gem),
            39 => Some(Step::Ghcup),
            40 => Some(Step::GitRepos),
            41 => Some(Step::GithubCliExtensions),
            42 => Some(Step::GnomeShellExtensions),
            43 => Some(Step::Go),
            44 => Some(Step::Guix),
            45 => Some(Step::Haxelib),
            46 => Some(Step::Helix),
            47 => Some(Step::Helm),
            48 => Some(Step::HomeManager),
            49 => Some(Step::JetbrainsAqua),
            50 => Some(Step::JetbrainsClion),
            51 => Some(Step::JetbrainsDatagrip),
            52 => Some(Step::JetbrainsDataspell),
            53 => Some(Step::JetbrainsGateway),
            54 => Some(Step::JetbrainsGoland),
            55 => Some(Step::JetbrainsIdea),
            56 => Some(Step::JetbrainsMps),
            57 => Some(Step::JetbrainsPhpstorm),
            58 => Some(Step::JetbrainsPycharm),
            59 => Some(Step::JetbrainsRider),
            60 => Some(Step::JetbrainsRubymine),
            61 => Some(Step::JetbrainsRustrover),
            62 => Some(Step::JetbrainsToolbox),
            63 => Some(Step::JetbrainsWebstorm),
            64 => Some(Step::Jetpack),
            65 => Some(Step::Julia),
            66 => Some(Step::Juliaup),
            67 => Some(Step::Kakoune),
            68 => Some(Step::Krew),
            69 => Some(Step::Lensfun),
            70 => Some(Step::Lure),
            71 => Some(Step::Macports),
            72 => Some(Step::Mamba),
            73 => Some(Step::Mas),
            74 => Some(Step::Maza),
            75 => Some(Step::Micro),
            76 => Some(Step::MicrosoftStore),
            77 => Some(Step::Miktex),
            78 => Some(Step::Mise),
            79 => Some(Step::Myrepos),
            80 => Some(Step::Nix),
            81 => Some(Step::Node),
            82 => Some(Step::Opam),
            83 => Some(Step::Pacdef),
            84 => Some(Step::Pacstall),
            85 => Some(Step::Pearl),
            86 => Some(Step::Pip3),
            87 => Some(Step::PipReview),
            88 => Some(Step::PipReviewLocal),
            89 => Some(Step::Pipupgrade),
            90 => Some(Step::Pipx),
            91 => Some(Step::Pipxu),
            92 => Some(Step::Pixi),
            93 => Some(Step::Pkg),
            94 => Some(Step::Pkgin),
            95 => Some(Step::PlatformioCore),
            96 => Some(Step::Pnpm),
            97 => Some(Step::Poetry),
            98 => Some(Step::Powershell),
            99 => Some(Step::Protonup),
            100 => Some(Step::Pyenv),
            101 => Some(Step::Raco),
            102 => Some(Step::Rcm),
            103 => Some(Step::Remotes),
            104 => Some(Step::Restarts),
            105 => Some(Step::Rtcl),
            106 => Some(Step::RubyGems),
            107 => Some(Step::Rustup),
            108 => Some(Step::Rye),
            109 => Some(Step::Scoop),
            110 => Some(Step::Sdkman),
            111 => Some(Step::SelfUpdate),
            112 => Some(Step::Sheldon),
            113 => Some(Step::Shell),
            114 => Some(Step::Snap),
            115 => Some(Step::Sparkle),
            116 => Some(Step::Spicetify),
            117 => Some(Step::Stack),
            118 => Some(Step::Stew),
            119 => Some(Step::System),
            120 => Some(Step::Tldr),
            121 => Some(Step::Tlmgr),
            122 => Some(Step::Tmux),
            123 => Some(Step::Toolbx),
            124 => Some(Step::Uv),
            125 => Some(Step::Vagrant),
            126 => Some(Step::Vcpkg),
            127 => Some(Step::Vim),
            128 => Some(Step::VoltaPackages),
            129 => Some(Step::Vscode),
            130 => Some(Step::Vscodium),
            131 => Some(Step::Waydroid),
            132 => Some(Step::Winget),
            133 => Some(Step::Wsl),
            134 => Some(Step::WslUpdate),
            135 => Some(Step::Xcodes),
            136 => Some(Step::Yadm),
            137 => Some(Step::Yarn),
            138 => Some(Step::Yazi),
            139 => Some(Step::Zigup),
            140 => Some(Step::Zvm),
            _ => None,
        }
    }

    /// The name by which the step is written on the command line.
    pub fn name(&self) -> (name: &'static str)
        ensures
            name@ == self.spec_name(),
    {
        match self {
            Step::AM => "am",
            Step::AndroidStudio => "android_studio",
            Step::AppMan => "app_man",
            Step::Aqua => "aqua",
            Step::Asdf => "asdf",
            Step::Atom => "atom",
            Step::Audit => "audit",
            Step::AutoCpufreq => "auto_cpufreq",
            Step::Bin => "bin",
            Step::Bob => "bob",
            Step::BrewCask => "brew_cask",
            Step::BrewFormula => "brew_formula",
            Step::Bun => "bun",
            Step::BunPackages => "bun_packages",
            Step::Cargo => "cargo",
            Step::Certbot => "certbot",
            Step::Chezmoi => "chezmoi",
            Step::Chocolatey => "chocolatey",
            Step::Choosenim => "choosenim",
            Step::CinnamonSpices => "cinnamon_spices",
            Step::ClamAvDb => "clam_av_db",
            Step::Composer => "composer",
            Step::Conda => "conda",
            Step::ConfigUpdate => "config_update",
            Step::Containers => "containers",
            Step::CustomCommands => "custom_commands",
            Step::DebGet => "deb_get",
            Step::Deno => "deno",
            Step::Distrobox => "distrobox",
            Step::DkpPacman => "dkp_pacman",
            Step::Dotnet => "dotnet",
            Step::Elan => "elan",
            Step::Emacs => "emacs",
            Step::Firmware => "firmware",
            Step::Flatpak => "flatpak",
            Step::Flutter => "flutter",
            Step::Fossil => "fossil",
            Step::Gcloud => "gcloud",
            Step::Gem => "gem",
            Step::Ghcup => "ghcup",
            Step::GitRepos => "git_repos",
            Step::GithubCliExtensions => "github_cli_extensions",
            Step::GnomeShellExtensions => "gnome_shell_extensions",
            Step::Go => "go",
            Step::Guix => "guix",
            Step::Haxelib => "haxelib",
            Step::Helix => "helix",
            Step::Helm => "helm",
            Step::HomeManager => "home_manager",
            Step::JetbrainsAqua => "jetbrains_aqua",
            Step::JetbrainsClion => "jetbrains_clion",
            Step::JetbrainsDatagrip => "jetbrains_datagrip",
            Step::JetbrainsDataspell => "jetbrains_dataspell",
            Step::JetbrainsGateway => "jetbrains_gateway",
            Step::JetbrainsGoland => "jetbrains_goland",
            Step::JetbrainsIdea => "jetbrains_idea",
            Step::JetbrainsMps => "jetbrains_mps",
            Step::JetbrainsPhpstorm => "jetbrains_phpstorm",
            Step::JetbrainsPycharm => "jetbrains_pycharm",
            Step::JetbrainsRider => "jetbrains_rider",
            Step::JetbrainsRubymine => "jetbrains_rubymine",
            Step::JetbrainsRustrover => "jetbrains_rustrover",
            Step::JetbrainsToolbox => "jetbrains_toolbox",
            Step::JetbrainsWebstorm => "jetbrains_webstorm",
            Step::Jetpack => "jetpack",
            Step::Julia => "julia",
            Step::Juliaup => "juliaup",
            Step::Kakoune => "kakoune",
            Step::Krew => "krew",
            Step::Lensfun => "lensfun",
            Step::Lure => "lure",
            Step::Macports => "macports",
            Step::Mamba => "mamba",
            Step::Mas => "mas",
            Step::Maza => "maza",
            Step::Micro => "micro",
            Step::MicrosoftStore => "microsoft_store",
            Step::Miktex => "miktex",
            Step::Mise => "mise",
            Step::Myrepos => "myrepos",
            Step::Nix => "nix",
            Step::Node => "node",
            Step::Opam => "opam",
            Step::Pacdef => "pacdef",
            Step::Pacstall => "pacstall",
            Step::Pearl => "pearl",
            Step::Pip3 => "pip3",
            Step::PipReview => "pip_review",
            Step::PipReviewLocal => "pip_review_local",
            Step::Pipupgrade => "pipupgrade",
            Step::Pipx => "pipx",
            Step::Pipxu => "pipxu",
            Step::Pixi => "pixi",
            Step::Pkg => "pkg",
            Step::Pkgin => "pkgin",
            Step::PlatformioCore => "platformio_core",
            Step::Pnpm => "pnpm",
            Step::Poetry => "poetry",
            Step::Powershell => "powershell",
            Step::Protonup => "protonup",
            Step::Pyenv => "pyenv",
            Step::Raco => "raco",
            Step::Rcm => "rcm",
            Step::Remotes => "remotes",
            Step::Restarts => "restarts",
            Step::Rtcl => "rtcl",
            Step::RubyGems => "ruby_gems",
            Step::Rustup => "rustup",
            Step::Rye => "rye",
            Step::Scoop => "scoop",
            Step::Sdkman => "sdkman",
            Step::SelfUpdate => "self_update",
            Step::Sheldon => "sheldon",
            Step::Shell => "shell",
            Step::Snap => "snap",
            Step::Sparkle => "sparkle",
            Step::Spicetify => "spicetify",
            Step::Stack => "stack",
            Step::Stew => "stew",
            Step::System => "system",
            Step::Tldr => "tldr",
            Step::Tlmgr => "tlmgr",
            Step::Tmux => "tmux",
            Step::Toolbx => "toolbx",
            Step::Uv => "uv",
            Step::Vagrant => "vagrant",
            Step::Vcpkg => "vcpkg",
            Step::Vim => "vim",
            Step::VoltaPackages => "volta_packages",
            Step::Vscode => "vscode",
            Step::Vscodium => "vscodium",
            Step::Waydroid => "waydroid",
            Step::Winget => "winget",
            Step::Wsl => "wsl",
            Step::WslUpdate => "wsl_update",
            Step::Xcodes => "xcodes",
            Step::Yadm => "yadm",
            Step::Yarn => "yarn",
            Step::Yazi => "yazi",
            Step::Zigup => "zigup",
            Step::Zvm => "zvm",
        }
    }

    /// Every step once, in declaration order.
    pub fn all() -> (steps: Vec<Step>)
        ensures
            steps@ == Step::universe(),
            steps@.no_duplicates(),
    {
        let mut steps: Vec<Step> = Vec::new();
        let mut position: usize = 0;
        while position < Step::COUNT
            invariant
                position <= Step::COUNT,
                steps@.len() == position,
                forall|i: int| 0 <= i < position ==> (#[trigger] steps@[i]).ordinal() == i,
            decreases Step::COUNT - position,
        {
            match Step::from_ordinal(position) {
                Some(step) => steps.push(step),
                None => {},
            }
            position += 1;
        }
        proof {
            assert forall|i: int| 0 <= i < Step::COUNT implies steps@[i] == Step::with_ordinal(i) by {
                Step::lemma_ordinal_injective(steps@[i], Step::with_ordinal(i));
            }
            assert(steps@ =~= Step::universe());
        }
        steps
    }

    /// The step of a name, if the name is that of a step.
    pub fn from_name(name: &str) -> (found: Option<Step>)
        ensures
            match found {
                Some(step) => step.spec_name() == name@,
                None => forall|step: Step| step.spec_name() != name@,
            },
    {
        let wanted = name.to_owned();
        let mut position: usize = 0;
        while position < Step::COUNT
            invariant
                position <= Step::COUNT,
                wanted@ == name@,
                forall|step: Step| step.ordinal() < position ==> step.spec_name() != name@,
            decreases Step::COUNT - position,
        {
            match Step::from_ordinal(position) {
                Some(step) => {
                    if step.name().to_owned() == wanted {
                        return Some(step);
                    }
                    proof {
                        assert forall|other: Step| other.ordinal() < position + 1 implies other.spec_name()
                            != name@ by {
                            if other.ordinal() == position {
                                Step::lemma_ordinal_injective(other, step);
                            }
                        }
                    }
                },
                None => {},
            }
            position += 1;
        }
        proof {
            assert forall|step: Step| step.spec_name() != name@ by {
                Step::lemma_ordinal_bound(step);
            }
        }
        None
    }

    /// Every step has a position below `COUNT`.
    pub proof fn lemma_ordinal_bound(step: Step)
        ensures
            step.ordinal() < Step::COUNT,
    {
    }

    /// No two steps share a position.
    pub proof fn lemma_ordinal_injective(a: Step, b: Step)
        requires
            a.ordinal() == b.ordinal(),
        ensures
            a == b,
    {
    }

    /// The position of the step in the declaration order.
    pub fn position(self) -> (position: usize)
        ensures
            position == self.ordinal(),
    {
        let mut position: usize = 0;
        while position < Step::COUNT
            invariant
                position <= Step::COUNT,
                self.ordinal() >= position,
            decreases Step::COUNT - position,
        {
            match Step::from_ordinal(position) {
                Some(step) => {
                    if step == self {
                        return position;
                    }
                    proof {
                        if self.ordinal() == position {
                            Step::lemma_ordinal_injective(self, step);
                        }
                    }
                },
                None => {},
            }
            position += 1;
        }
        proof {
            Step::lemma_ordinal_bound(self);
        }
        position
    }

    /// No two steps share a name: the names differ in their length or in one
    /// of a few characters.
    pub proof fn law_names_differ(a: Step, b: Step)
        requires
            a.spec_name() == b.spec_name(),
        ensures
            a == b,
    {
        reveal_strlit("am");
        assert(mark("am"@) == (2nat, 'm', ' ', ' ', ' '));
        reveal_strlit("android_studio");
        assert(mark("android_studio"@) == (14nat, 'n', 'd', 'r', 'u'));
        reveal_strlit("app_man");
        assert(mark("app_man"@) == (7nat, 'p', 'p', '_', ' '));
        reveal_strlit("aqua");
        assert(mark("aqua"@) == (4nat, 'q', 'u', 'a', ' '));
        reveal_strlit("asdf");
        assert(mark("asdf"@) == (4nat, 's', 'd', 'f', ' '));
        reveal_strlit("atom");
        assert(mark("atom"@) == (4nat, 't', 'o', 'm', ' '));
        reveal_strlit("audit");
        assert(mark("audit"@) == (5nat, 'u', 'd', 'i', ' '));
        reveal_strlit("auto_cpufreq");
        assert(mark("auto_cpufreq"@) == (12nat, 'u', 't', 'o', 'e'));
        reveal_strlit("bin");
        assert(mark("bin"@) == (3nat, 'i', 'n', ' ', ' '));
        reveal_strlit("bob");
        assert(mark("bob"@) == (3nat, 'o', 'b', ' ', ' '));
        reveal_strlit("brew_cask");
        assert(mark("brew_cask"@) == (9nat, 'r', 'e', 'w', ' '));
        reveal_strlit("brew_formula");
        assert(mark("brew_formula"@) == (12nat, 'r', 'e', 'w', 'l'));
        reveal_strlit("bun");
        assert(mark("bun"@) == (3nat, 'u', 'n', ' ', ' '));
        reveal_strlit("bun_packages");
        assert(mark("bun_packages"@) == (12nat, 'u', 'n', '_', 'e'));
        reveal_strlit("cargo");
        assert(mark("cargo"@) == (5nat, 'a', 'r', 'g', ' '));
        reveal_strlit("certbot");
        assert(mark("certbot"@) == (7nat, 'e', 'r', 't', ' '));
        reveal_strlit("chezmoi");
        assert(mark("chezmoi"@) == (7nat, 'h', 'e', 'z', ' '));
        reveal_strlit("chocolatey");
        assert(mark("chocolatey"@) == (10nat, 'h', 'o', 'c', ' '));
        reveal_strlit("choosenim");
        assert(mark("choosenim"@) == (9nat, 'h', 'o', 'o', ' '));
        reveal_strlit("cinnamon_spices");
        assert(mark("cinnamon_spices"@) == (15nat, 'i', 'n', 'n', 'p'));
        reveal_strlit("clam_av_db");
        assert(mark("clam_av_db"@) == (10nat, 'l', 'a', 'm', ' '));
        reveal_strlit("composer");
        assert(mark("composer"@) == (8nat, 'o', 'm', 'p', ' '));
        reveal_strlit("conda");
        assert(mark("conda"@) == (5nat, 'o', 'n', 'd', ' '));
        reveal_strlit("config_update");
        assert(mark("config_update"@) == (13nat, 'o', 'n', 'f', 'a'));
        reveal_strlit("containers");
        assert(mark("containers"@) == (10nat, 'o', 'n', 't', ' '));
        reveal_strlit("custom_commands");
        assert(mark("custom_commands"@) == (15nat, 'u', 's', 't', 'm'));
        reveal_strlit("deb_get");
        assert(mark("deb_get"@) == (7nat, 'e', 'b', '_', ' '));
        reveal_strlit("deno");
        assert(mark("deno"@) == (4nat, 'e', 'n', 'o', ' '));
        reveal_strlit("distrobox");
        assert(mark("distrobox"@) == (9nat, 'i', 's', 't', ' '));
        reveal_strlit("dkp_pacman");
        assert(mark("dkp_pacman"@) == (10nat, 'k', 'p', '_', ' '));
        reveal_strlit("dotnet");
        assert(mark("dotnet"@) == (6nat, 'o', 't', 'n', ' '));
        reveal_strlit("elan");
        assert(mark("elan"@) == (4nat, 'l', 'a', 'n', ' '));
        reveal_strlit("emacs");
        assert(mark("emacs"@) == (5nat, 'm', 'a', 'c', ' '));
        reveal_strlit("firmware");
        assert(mark("firmware"@) == (8nat, 'i', 'r', 'm', ' '));
        reveal_strlit("flatpak");
        assert(mark("flatpak"@) == (7nat, 'l', 'a', 't', ' '));
        reveal_strlit("flutter");
        assert(mark("flutter"@) == (7nat, 'l', 'u', 't', ' '));
        reveal_strlit("fossil");
        assert(mark("fossil"@) == (6nat, 'o', 's', 's', ' '));
        reveal_strlit("gcloud");
        assert(mark("gcloud"@) == (6nat, 'c', 'l', 'o', ' '));
        reveal_strlit("gem");
        assert(mark("gem"@) == (3nat, 'e', 'm', ' ', ' '));
        reveal_strlit("ghcup");
        assert(mark("ghcup"@) == (5nat, 'h', 'c', 'u', ' '));
        reveal_strlit("git_repos");
        assert(mark("git_repos"@) == (9nat, 'i', 't', '_', ' '));
        reveal_strlit("github_cli_extensions");
        assert(mark("github_cli_extensions"@) == (21nat, 'i', 't', 'h', '_'));
        reveal_strlit("gnome_shell_extensions");
        assert(mark("gnome_shell_extensions"@) == (22nat, 'n', 'o', 'm', 'l'));
        reveal_strlit("go");
        assert(mark("go"@) == (2nat, 'o', ' ', ' ', ' '));
        reveal_strlit("guix");
        assert(mark("guix"@) == (4nat, 'u', 'i', 'x', ' '));
        reveal_strlit("haxelib");
        assert(mark("haxelib"@) == (7nat, 'a', 'x', 'e', ' '));
        reveal_strlit("helix");
        assert(mark("helix"@) == (5nat, 'e', 'l', 'i', ' '));
        reveal_strlit("helm");
        assert(mark("helm"@) == (4nat, 'e', 'l', 'm', ' '));
        reveal_strlit("home_manager");
        assert(mark("home_manager"@) == (12nat, 'o', 'm', 'e', 'e'));
        reveal_strlit("jetbrains_aqua");
        assert(mark("jetbrains_aqua"@) == (14nat, 'e', 't', 'b', 'a'));
        reveal_strlit("jetbrains_clion");
        assert(mark("jetbrains_clion"@) == (15nat, 'e', 't', 'b', 'c'));
        reveal_strlit("jetbrains_datagrip");
        assert(mark("jetbrains_datagrip"@) == (18nat, 'e', 't', 'b', 'd'));
        reveal_strlit("jetbrains_dataspell");
        assert(mark("jetbrains_dataspell"@) == (19nat, 'e', 't', 'b', 'd'));
        reveal_strlit("jetbrains_gateway");
        assert(mark("jetbrains_gateway"@) == (17nat, 'e', 't', 'b', 'g'));
        reveal_strlit("jetbrains_goland");
        assert(mark("jetbrains_goland"@) == (16nat, 'e', 't', 'b', 'g'));
        reveal_strlit("jetbrains_idea");
        assert(mark("jetbrains_idea"@) == (14nat, 'e', 't', 'b', 'i'));
        reveal_strlit("jetbrains_mps");
        assert(mark("jetbrains_mps"@) == (13nat, 'e', 't', 'b', 'm'));
        reveal_strlit("jetbrains_phpstorm");
        assert(mark("jetbrains_phpstorm"@) == (18nat, 'e', 't', 'b', 'p'));
        reveal_strlit("jetbrains_pycharm");
        assert(mark("jetbrains_pycharm"@) == (17nat, 'e', 't', 'b', 'p'));
        reveal_strlit("jetbrains_rider");
        assert(mark("jetbrains_rider"@) == (15nat, 'e', 't', 'b', 'r'));
        reveal_strlit("jetbrains_rubymine");
        assert(mark("jetbrains_rubymine"@) == (18nat, 'e', 't', 'b', 'r'));
        reveal_strlit("jetbrains_rustrover");
        assert(mark("jetbrains_rustrover"@) == (19nat, 'e', 't', 'b', 'r'));
        reveal_strlit("jetbrains_toolbox");
        assert(mark("jetbrains_toolbox"@) == (17nat, 'e', 't', 'b', 't'));
        reveal_strlit("jetbrains_webstorm");
        assert(mark("jetbrains_webstorm"@) == (18nat, 'e', 't', 'b', 'w'));
        reveal_strlit("jetpack");
        assert(mark("jetpack"@) == (7nat, 'e', 't', 'p', ' '));
        reveal_strlit("julia");
        assert(mark("julia"@) == (5nat, 'u', 'l', 'i', ' '));
        reveal_strlit("juliaup");
        assert(mark("juliaup"@) == (7nat, 'u', 'l', 'i', ' '));
        reveal_strlit("kakoune");
        assert(mark("kakoune"@) == (7nat, 'a', 'k', 'o', ' '));
        reveal_strlit("krew");
        assert(mark("krew"@) == (4nat, 'r', 'e', 'w', ' '));
        reveal_strlit("lensfun");
        assert(mark("lensfun"@) == (7nat, 'e', 'n', 's', ' '));
        reveal_strlit("lure");
        assert(mark("lure"@) == (4nat, 'u', 'r', 'e', ' '));
        reveal_strlit("macports");
        assert(mark("macports"@) == (8nat, 'a', 'c', 'p', ' '));
        reveal_strlit("mamba");
        assert(mark("mamba"@) == (5nat, 'a', 'm', 'b', ' '));
        reveal_strlit("mas");
        assert(mark("mas"@) == (3nat, 'a', 's', ' ', ' '));
        reveal_strlit("maza");
        assert(mark("maza"@) == (4nat, 'a', 'z', 'a', ' '));
        reveal_strlit("micro");
        assert(mark("micro"@) == (5nat, 'i', 'c', 'r', ' '));
        reveal_strlit("microsoft_store");
        assert(mark("microsoft_store"@) == (15nat, 'i', 'c', 'r', 's'));
        reveal_strlit("miktex");
        assert(mark("miktex"@) == (6nat, 'i', 'k', 't', ' '));
        reveal_strlit("mise");
        assert(mark("mise"@) == (4nat, 'i', 's', 'e', ' '));
        reveal_strlit("myrepos");
        assert(mark("myrepos"@) == (7nat, 'y', 'r', 'e', ' '));
        reveal_strlit("nix");
        assert(mark("nix"@) == (3nat, 'i', 'x', ' ', ' '));
        reveal_strlit("node");
        assert(mark("node"@) == (4nat, 'o', 'd', 'e', ' '));
        reveal_strlit("opam");
        assert(mark("opam"@) == (4nat, 'p', 'a', 'm', ' '));
        reveal_strlit("pacdef");
        assert(mark("pacdef"@) == (6nat, 'a', 'c', 'd', ' '));
        reveal_strlit("pacstall");
        assert(mark("pacstall"@) == (8nat, 'a', 'c', 's', ' '));
        reveal_strlit("pearl");
        assert(mark("pearl"@) == (5nat, 'e', 'a', 'r', ' '));
        reveal_strlit("pip3");
        assert(mark("pip3"@) == (4nat, 'i', 'p', '3', ' '));
        reveal_strlit("pip_review");
        assert(mark("pip_review"@) == (10nat, 'i', 'p', '_', ' '));
        reveal_strlit("pip_review_local");
        assert(mark("pip_review_local"@) == (16nat, 'i', 'p', '_', '_'));
        reveal_strlit("pipupgrade");
        assert(mark("pipupgrade"@) == (10nat, 'i', 'p', 'u', ' '));
        reveal_strlit("pipx");
        assert(mark("pipx"@) == (4nat, 'i', 'p', 'x', ' '));
        reveal_strlit("pipxu");
        assert(mark("pipxu"@) == (5nat, 'i', 'p', 'x', ' '));
        reveal_strlit("pixi");
        assert(mark("pixi"@) == (4nat, 'i', 'x', 'i', ' '));
        reveal_strlit("pkg");
        assert(mark("pkg"@) == (3nat, 'k', 'g', ' ', ' '));
        reveal_strlit("pkgin");
        assert(mark("pkgin"@) == (5nat, 'k', 'g', 'i', ' '));
        reveal_strlit("platformio_core");
        assert(mark("platformio_core"@) == (15nat, 'l', 'a', 't', '_'));
        reveal_strlit("pnpm");
        assert(mark("pnpm"@) == (4nat, 'n', 'p', 'm', ' '));
        reveal_strlit("poetry");
        assert(mark("poetry"@) == (6nat, 'o', 'e', 't', ' '));
        reveal_strlit("powershell");
        assert(mark("powershell"@) == (10nat, 'o', 'w', 'e', ' '));
        reveal_strlit("protonup");
        assert(mark("protonup"@) == (8nat, 'r', 'o', 't', ' '));
        reveal_strlit("pyenv");
        assert(mark("pyenv"@) == (5nat, 'y', 'e', 'n', ' '));
        reveal_strlit("raco");
        assert(mark("raco"@) == (4nat, 'a', 'c', 'o', ' '));
        reveal_strlit("rcm");
        assert(mark("rcm"@) == (3nat, 'c', 'm', ' ', ' '));
        reveal_strlit("remotes");
        assert(mark("remotes"@) == (7nat, 'e', 'm', 'o', ' '));
        reveal_strlit("restarts");
        assert(mark("restarts"@) == (8nat, 'e', 's', 't', ' '));
        reveal_strlit("rtcl");
        assert(mark("rtcl"@) == (4nat, 't', 'c', 'l', ' '));
        reveal_strlit("ruby_gems");
        assert(mark("ruby_gems"@) == (9nat, 'u', 'b', 'y', ' '));
        reveal_strlit("rustup");
        assert(mark("rustup"@) == (6nat, 'u', 's', 't', ' '));
        reveal_strlit("rye");
        assert(mark("rye"@) == (3nat, 'y', 'e', ' ', ' '));
        reveal_strlit("scoop");
        assert(mark("scoop"@) == (5nat, 'c', 'o', 'o', ' '));
        reveal_strlit("sdkman");
        assert(mark("sdkman"@) == (6nat, 'd', 'k', 'm', ' '));
        reveal_strlit("self_update");
        assert(mark("self_update"@) == (11nat, 'e', 'l', 'f', 'e'));
        reveal_strlit("sheldon");
        assert(mark("sheldon"@) == (7nat, 'h', 'e', 'l', ' '));
        reveal_strlit("shell");
        assert(mark("shell"@) == (5nat, 'h', 'e', 'l', ' '));
        reveal_strlit("snap");
        assert(mark("snap"@) == (4nat, 'n', 'a', 'p', ' '));
        reveal_strlit("sparkle");
        assert(mark("sparkle"@) == (7nat, 'p', 'a', 'r', ' '));
        reveal_strlit("spicetify");
        assert(mark("spicetify"@) == (9nat, 'p', 'i', 'c', ' '));
        reveal_strlit("stack");
        assert(mark("stack"@) == (5nat, 't', 'a', 'c', ' '));
        reveal_strlit("stew");
        assert(mark("stew"@) == (4nat, 't', 'e', 'w', ' '));
        reveal_strlit("system");
        assert(mark("system"@) == (6nat, 'y', 's', 't', ' '));
        reveal_strlit("tldr");
        assert(mark("tldr"@) == (4nat, 'l', 'd', 'r', ' '));
        reveal_strlit("tlmgr");
        assert(mark("tlmgr"@) == (5nat, 'l', 'm', 'g', ' '));
        reveal_strlit("tmux");
        assert(mark("tmux"@) == (4nat, 'm', 'u', 'x', ' '));
        reveal_strlit("toolbx");
        assert(mark("toolbx"@) == (6nat, 'o', 'o', 'l', ' '));
        reveal_strlit("uv");
        assert(mark("uv"@) == (2nat, 'v', ' ', ' ', ' '));
        reveal_strlit("vagrant");
        assert(mark("vagrant"@) == (7nat, 'a', 'g', 'r', ' '));
        reveal_strlit("vcpkg");
        assert(mark("vcpkg"@) == (5nat, 'c', 'p', 'k', ' '));
        reveal_strlit("vim");
        assert(mark("vim"@) == (3nat, 'i', 'm', ' ', ' '));
        reveal_strlit("volta_packages");
        assert(mark("volta_packages"@) == (14nat, 'o', 'l', 't', 'a'));
        reveal_strlit("vscode");
        assert(mark("vscode"@) == (6nat, 's', 'c', 'o', ' '));
        reveal_strlit("vscodium");
        assert(mark("vscodium"@) == (8nat, 's', 'c', 'o', ' '));
        reveal_strlit("waydroid");
        assert(mark("waydroid"@) == (8nat, 'a', 'y', 'd', ' '));
        reveal_strlit("winget");
        assert(mark("winget"@) == (6nat, 'i', 'n', 'g', ' '));
        reveal_strlit("wsl");
        assert(mark("wsl"@) == (3nat, 's', 'l', ' ', ' '));
        reveal_strlit("wsl_update");
        assert(mark("wsl_update"@) == (10nat, 's', 'l', '_', ' '));
        reveal_strlit("xcodes");
        assert(mark("xcodes"@) == (6nat, 'c', 'o', 'd', ' '));
        reveal_strlit("yadm");
        assert(mark("yadm"@) == (4nat, 'a', 'd', 'm', ' '));
        reveal_strlit("yarn");
        assert(mark("yarn"@) == (4nat, 'a', 'r', 'n', ' '));
        reveal_strlit("yazi");
        assert(mark("yazi"@) == (4nat, 'a', 'z', 'i', ' '));
        reveal_strlit("zigup");
        assert(mark("zigup"@) == (5nat, 'i', 'g', 'u', ' '));
        reveal_strlit("zvm");
        assert(mark("zvm"@) == (3nat, 'v', 'm', ' ', ' '));
    }

    /// The universe holds every step, at its own position.
    pub proof fn lemma_universe_complete(step: Step)
        ensures
            step.ordinal() < Step::universe().len(),
            Step::universe()[step.ordinal() as int] == step,
            Step::universe().contains(step),
    {
        Step::lemma_ordinal_bound(step);
        Step::lemma_ordinal_injective(Step::with_ordinal(step.ordinal() as int), step);
    }
}

} // verus!
