//! The manifest generator: derives the IDE-integration manifest from the
//! configuration — the composed image reference, the display name, and the
//! editor customizations — and renders it as a JSON document. A plain,
//! dependency-free transform with no failure mode.

use vstd::prelude::*;
use vstd::string::StringExecFns;

use crate::text::{json_string, json_string_array};
use crate::{Niksi, NiksiConfig};

verus! {

/// The schema based on which the .devcontainer.json file is generated.
#[derive(Debug, Clone)]
pub struct DevContainer {
    /// The display name for the Dev Container: the project name, suffixed
    /// with the course code in parentheses when one is configured.
    pub name: String,
    /// The docker image that will be used to create the container.
    pub image: String,
    /// The customizations applied to the container.
    pub customizations: Customizations,
}

/// VSCode specific tool configuration.
#[derive(Debug, Clone)]
pub struct VSCode {
    /// List of extensions available in the Dev Container, each given by its
    /// extension id (e.g. "scalameta.metals").
    pub extensions: Vec<String>,
}

/// Tool specific customizations for the Dev Container schema. For now only
/// VSCode extensions are supported.
#[derive(Debug, Clone)]
pub struct Customizations {
    /// The VSCode-specific customizations.
    pub vscode: VSCode,
}

/// The composed image reference: `{registry}/{name}:{version}` when a
/// registry is configured, else `{name}:{version}`.
pub open spec fn image_spec(c: NiksiConfig) -> Seq<char> {
    (match c.registry {
        Some(r) => r@ + seq!['/'],
        None => Seq::<char>::empty(),
    }) + c.name@ + seq![':'] + c.version@
}

/// The display name: the project name, or `{name} ({code})` when a course
/// code is configured.
pub open spec fn display_name_spec(c: NiksiConfig) -> Seq<char> {
    c.name@ + (match c.course_code {
        Some(code) => " ("@ + code@ + seq![')'],
        None => Seq::<char>::empty(),
    })
}

impl DevContainer {
    /// Derives the manifest from the configuration: the composed image
    /// reference, the display name, and the configured editor extensions,
    /// carried over verbatim.
    pub fn from_config(config: &NiksiConfig) -> (r: DevContainer)
        ensures
            r.image@ == image_spec(*config),
            r.name@ == display_name_spec(*config),
            r.customizations.vscode.extensions@ == config.vscode_extensions@,
    {
        let mut image = match &config.registry {
            Some(reg) => {
                let mut s = reg.clone();
                s.append("/");
                s
            },
            None => String::new(),
        };
        image.append(config.name.as_str());
        image.append(":");
        image.append(config.version.as_str());
        let mut name = config.name.clone();
        match &config.course_code {
            Some(code) => {
                name.append(" (");
                name.append(code.as_str());
                name.append(")");
            },
            None => {},
        }
        proof {
            reveal_strlit("/");
            reveal_strlit(":");
            reveal_strlit(" (");
            reveal_strlit(")");
            assert(image@ =~= image_spec(*config));
            assert(name@ =~= display_name_spec(*config));
        }
        DevContainer {
            name,
            image,
            customizations: Customizations {
                vscode: VSCode {
                    extensions: crate::text::clone_strings(&config.vscode_extensions),
                },
            },
        }
    }
}

/// The manifest JSON document for `c`, character for character:
/// `{"name": ..., "image": ..., "customizations": [{"type": "vscode",
/// "extensions": [...]}]}`.
pub open spec fn devcontainer_json_spec(c: NiksiConfig) -> Seq<char> {
    "{\"name\":"@ + json_string(display_name_spec(c)) + ",\"image\":"@ + json_string(image_spec(c))
        + ",\"customizations\":[{\"type\":\"vscode\",\"extensions\":"@ + json_string_array(
        c.vscode_extensions.deep_view(),
    ) + "}]}"@
}

impl Niksi {
    /// Outputs the JSON for .devcontainer.json as a string: the manifest
    /// derived from this context's configuration. Pure; cannot fail.
    pub fn devcontainer_json(&self) -> (r: String)
        ensures
            r@ == devcontainer_json_spec(self.config),
    {
        let manifest = DevContainer::from_config(&self.config);
        let mut out = String::new();
        out.append("{\"name\":");
        crate::text::append_json_string(&mut out, manifest.name.as_str());
        out.append(",\"image\":");
        crate::text::append_json_string(&mut out, manifest.image.as_str());
        out.append(",\"customizations\":[{\"type\":\"vscode\",\"extensions\":");
        crate::text::append_json_string_array(&mut out, &manifest.customizations.vscode.extensions);
        out.append("}]}");
        proof {
            assert(out@ =~= devcontainer_json_spec(self.config));
        }
        out
    }
}

} // verus!
