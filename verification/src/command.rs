use crate::envvars::{env_lookup, lemma_env_lookup_append, EnvVar};
use crate::package::{Package, ToolchainImage};
use vstd::prelude::*;
use vstd::string::StringExecFns;

verus! {

/// Everything the caller needs to run the package manager once: the
/// program, its ordered arguments, and the environment overrides to apply
/// on top of the inherited environment.
#[derive(Debug, Clone)]
pub struct CommandPlan {
    pub program: String,
    pub args: Vec<String>,
    pub env_overrides: Vec<EnvVar>,
}

/// The directory a package's global install is redirected into: a
/// per-package image directory under the home directory. Deterministic in
/// its inputs and unique per package name, so concurrent installs of
/// different packages never share a target.
pub open spec fn install_dir(home: Seq<char>, package_name: Seq<char>) -> Seq<char> {
    home + "/tools/image/packages/"@ + package_name
}

/// Computes `install_dir` for a concrete home directory and package name.
pub fn package_install_directory(home: &str, package_name: &str) -> (r: String)
    ensures
        r@ == install_dir(home@, package_name@),
{
    let mut r = home.to_owned();
    r.append("/tools/image/packages/");
    r.append(package_name);
    r
}

/// The exact invocation that installs `package` with the image's package
/// manager and redirects the install into the per-package directory:
/// - program `npm`;
/// - arguments `install --global --loglevel=warn --no-update-notifier
///   --no-audit <package specification>`, in that order — the log level
///   suppresses informational noise but keeps warnings, and the two `--no-`
///   flags cut the update banner and the audit network call;
/// - exactly two environment overrides: the executable search path is
///   replaced by the image's binary directory, and the package manager's
///   installation prefix is pointed at the per-package directory, which
///   is what relocates the "global" install.
pub open spec fn plan_ok(
    pkg: Package,
    home: Seq<char>,
    image: ToolchainImage,
    plan: CommandPlan,
) -> bool {
    &&& plan.program@ == "npm"@
    &&& plan.args@.len() == 6
    &&& plan.args@[0]@ == "install"@
    &&& plan.args@[1]@ == "--global"@
    &&& plan.args@[2]@ == "--loglevel=warn"@
    &&& plan.args@[3]@ == "--no-update-notifier"@
    &&& plan.args@[4]@ == "--no-audit"@
    &&& plan.args@[5]@ == pkg.spec@
    &&& plan.env_overrides@.len() == 2
    &&& plan.env_overrides@[0].name@ == "PATH"@
    &&& plan.env_overrides@[0].value@ == image.bin_path@
    &&& plan.env_overrides@[1].name@ == "npm_config_prefix"@
    &&& plan.env_overrides@[1].value@ == install_dir(home, pkg.name@)
}

impl Package {
    /// Builds the one plan `plan_ok` allows for this package, the given
    /// image and the given home directory.
    pub fn install_command(&self, image: &ToolchainImage, home: &str) -> (plan: CommandPlan)
        ensures
            plan_ok(*self, home@, *image, plan),
    {
        let mut args: Vec<String> = Vec::new();
        args.push("install".to_owned());
        args.push("--global".to_owned());
        args.push("--loglevel=warn".to_owned());
        args.push("--no-update-notifier".to_owned());
        args.push("--no-audit".to_owned());
        args.push(self.spec.clone());

        let mut env_overrides: Vec<EnvVar> = Vec::new();
        env_overrides.push(
            EnvVar { name: "PATH".to_owned(), value: image.bin_path.clone() },
        );
        env_overrides.push(
            EnvVar {
                name: "npm_config_prefix".to_owned(),
                value: package_install_directory(home, self.name.as_str()),
            },
        );

        CommandPlan { program: "npm".to_owned(), args, env_overrides }
    }
}

/// In the child environment — the inherited environment with the plan's
/// overrides appended — the executable search path reads as the image's
/// binary directory and the installation prefix as the per-package install
/// directory, and every other name keeps its inherited value: nothing else
/// is removed or altered, so locale, proxy and credential variables pass
/// through to the package manager.
pub proof fn lemma_plan_env(
    pkg: Package,
    home: Seq<char>,
    image: ToolchainImage,
    plan: CommandPlan,
    inherited: Seq<EnvVar>,
    name: Seq<char>,
)
    requires
        plan_ok(pkg, home, image, plan),
    ensures
        env_lookup(inherited + plan.env_overrides@, "PATH"@) == Some(image.bin_path@),
        env_lookup(inherited + plan.env_overrides@, "npm_config_prefix"@) == Some(
            install_dir(home, pkg.name@),
        ),
        name != "PATH"@ && name != "npm_config_prefix"@ ==> env_lookup(
            inherited + plan.env_overrides@,
            name,
        ) == env_lookup(inherited, name),
{
    reveal_strlit("PATH");
    reveal_strlit("npm_config_prefix");
    let ov = plan.env_overrides@;
    let ov1 = ov.drop_last();
    assert(ov.last() == ov[1]);
    assert(ov1.last() == ov[0]);
    assert(ov1.drop_last().len() == 0);
    assert("PATH"@.len() == 4);
    assert("npm_config_prefix"@.len() == 17);
    assert(env_lookup(ov, "npm_config_prefix"@) == Some(install_dir(home, pkg.name@)));
    assert(env_lookup(ov, "PATH"@) == Some(image.bin_path@)) by {
        assert(env_lookup(ov1, "PATH"@) == Some(ov[0].value@));
    }
    if name != "PATH"@ && name != "npm_config_prefix"@ {
        assert(env_lookup(ov1.drop_last(), name) is None);
        assert(env_lookup(ov1, name) is None);
        assert(env_lookup(ov, name) is None);
    }
    lemma_env_lookup_append(inherited, ov, "PATH"@);
    lemma_env_lookup_append(inherited, ov, "npm_config_prefix"@);
    lemma_env_lookup_append(inherited, ov, name);
}

} // verus!
