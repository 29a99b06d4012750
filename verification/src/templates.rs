//! The files that `init` writes next to a project.

use vstd::prelude::*;
use crate::text::{replace, replaced};

verus! {

/// A lane file with three deploy lanes; `{{SCHEME}}` stands for the scheme.
pub const FASTFILE_TEMPLATE: &'static str = r#"default_platform(:ios)

platform :ios do
  lane :beta do
    increment_build_number
    build_app(scheme: "{{SCHEME}}")
    upload_to_testflight(
      api_key_path: ENV["APP_STORE_CONNECT_API_KEY_KEY_FILEPATH"],
      skip_waiting_for_build_processing: true
    )
  end

  lane :beta_patch do
    increment_version_number(bump_type: "patch")
    increment_build_number(build_number: 1)
    build_app(scheme: "{{SCHEME}}")
    upload_to_testflight(
      api_key_path: ENV["APP_STORE_CONNECT_API_KEY_KEY_FILEPATH"],
      skip_waiting_for_build_processing: true
    )
  end

  lane :beta_minor do
    increment_version_number(bump_type: "minor")
    increment_build_number(build_number: 1)
    build_app(scheme: "{{SCHEME}}")
    upload_to_testflight(
      api_key_path: ENV["APP_STORE_CONNECT_API_KEY_KEY_FILEPATH"],
      skip_waiting_for_build_processing: true
    )
  end
end
"#;

/// The placeholder that the lane file template holds for the scheme name.
pub const SCHEME_PLACEHOLDER: &'static str = "{{SCHEME}}";

/// An example project configuration for a team to copy.
pub const LAUNCHPAD_TOML_EXAMPLE: &'static str = r#"# Launchpad configuration file
# Copy this to .launchpad.toml and customize for your project

[project]
ios_path = "ios"           # Path to iOS project directory
scheme = "YourAppScheme"   # Xcode scheme name
bundle_id = "com.example.app"

[deploy]
git_tag = true             # Create git tags after deploy
push_tags = true           # Push tags to remote
clean_artifacts = true     # Clean build artifacts after deploy
"#;

/// The lane file for a scheme: the template with the scheme name in place
/// of every placeholder.
pub fn generate_fastfile(scheme: &str) -> (r: String)
    ensures
        r@ == replaced(FASTFILE_TEMPLATE@, SCHEME_PLACEHOLDER@, scheme@),
{
    replace(FASTFILE_TEMPLATE, SCHEME_PLACEHOLDER, scheme)
}

} // verus!
