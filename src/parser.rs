//! The classifier: five ordered rule lists, first match wins.

use std::borrow::Cow;
use vstd::prelude::*;

use crate::builtin::{
    all_compile, cpu_rule, cpu_rules, engine_rule, engine_rules, lemma_architecture_names_fixed,
    lemma_engine_names_fixed, lemma_fixed_text_substitutes, CPURegex, EngineRegex, CPU_TABLE,
    ENGINE_TABLE,
};
use crate::errors::{Failure, UserAgentParserError};
use crate::models::{FieldModel, Product, CPU, Device, Engine, OS};
use crate::rules::{
    find_first, first_match, load_section, models, DeviceRegex, OSRegex, ProductRegex, Rule, RuleSpec,
    Section,
};
use crate::substitution::{substitute, substitution, CaptureModel};
use crate::yaml::{get, load_documents, lookup, yaml_documents, YamlNode};

verus! {

/// Default capture indices of the product fields: name, major, minor, patch.
pub open spec fn product_defaults() -> Seq<int> {
    seq![1, 2, 3, 4]
}

/// Default capture indices of the OS fields: name, major, minor, patch,
/// patch_minor.
pub open spec fn os_defaults() -> Seq<int> {
    seq![1, 2, 3, 4, 5]
}

/// Default capture indices of the device fields: name, brand, model. The
/// model defaults to group 1, as the name does.
pub open spec fn device_defaults() -> Seq<int> {
    seq![1, 2, 1]
}

/// Default capture index of the CPU architecture.
pub open spec fn cpu_defaults() -> Seq<int> {
    seq![1]
}

/// Default capture indices of the engine fields: name, major, minor, patch.
pub open spec fn engine_defaults() -> Seq<int> {
    seq![1, 2, 3, 4]
}

/// The fields that `rule` gives for `caps`, each from its own template.
pub open spec fn extract(rule: RuleSpec, defaults: Seq<int>, caps: CaptureModel) -> Seq<FieldModel> {
    Seq::new(defaults.len(), |f: int| substitution(rule.templates[f], defaults[f], caps))
}

/// The fields of the first rule that matches, all absent where none does.
pub open spec fn classify(rules: Seq<RuleSpec>, defaults: Seq<int>, text: Seq<char>) -> Seq<
    FieldModel,
> {
    match first_match(rules, text) {
        Some((i, caps)) => extract(rules[i], defaults, caps),
        None => Seq::new(defaults.len(), |f: int| None),
    }
}

/// The fields with an absent name replaced by `"Other"`.
pub open spec fn or_other(fields: Seq<FieldModel>) -> Seq<FieldModel> {
    if fields[0] is None {
        fields.update(0, Some("Other"@))
    } else {
        fields
    }
}

/// The rules of an optional section: none where it is missing.
pub open spec fn optional_section(section: Section, node: Option<YamlNode>) -> Result<
    Seq<RuleSpec>,
    Failure,
> {
    match node {
        None => Ok(Seq::empty()),
        Some(n) => load_section(section, n),
    }
}

/// The product, OS and device rules of a document, or why it has none.
pub open spec fn load(text: Seq<char>) -> Result<
    (Seq<RuleSpec>, Seq<RuleSpec>, Seq<RuleSpec>),
    Failure,
> {
    match yaml_documents(text) {
        None => Err(Failure::Malformed),
        Some(docs) => if docs.len() == 0 {
            Err(Failure::IncorrectSource)
        } else {
            match docs[0] {
                YamlNode::Mapping(e) => {
                    let p = optional_section(
                        Section::Product,
                        lookup(e@, "user_agent_parsers"@),
                    );
                    let o = optional_section(Section::Os, lookup(e@, "os_parsers"@));
                    let d = optional_section(Section::Device, lookup(e@, "device_parsers"@));
                    if p is Err {
                        Err(p->Err_0)
                    } else if o is Err {
                        Err(o->Err_0)
                    } else if d is Err {
                        Err(d->Err_0)
                    } else if !all_compile(cpu_rules()) || !all_compile(engine_rules()) {
                        Err(Failure::BadPattern)
                    } else {
                        Ok((p->Ok_0, o->Ok_0, d->Ok_0))
                    }
                },
                _ => Err(Failure::IncorrectSource),
            }
        },
    }
}

fn template(t: &Option<String>) -> (r: Option<&str>)
    ensures
        r.deep_view() == t.deep_view(),
{
    match t {
        Some(s) => Some(s.as_str()),
        None => None,
    }
}

/// Classifies user-agent strings by ordered rules.
#[derive(Debug)]
pub struct UserAgentParser {
    product_regexes: Vec<ProductRegex>,
    os_regexes: Vec<OSRegex>,
    device_regexes: Vec<DeviceRegex>,
    cpu_regexes: Vec<CPURegex>,
    engine_regexes: Vec<EngineRegex>,
}

impl UserAgentParser {
    /// The CPU and engine rules are the built-in ones.
    #[verifier::type_invariant]
    spec fn keeps_built_in_rules(&self) -> bool {
        models(self.cpu_regexes@) == cpu_rules() && models(self.engine_regexes@) == engine_rules()
    }

    pub closed spec fn product_rules(&self) -> Seq<RuleSpec> {
        models(self.product_regexes@)
    }

    pub closed spec fn os_rules(&self) -> Seq<RuleSpec> {
        models(self.os_regexes@)
    }

    pub closed spec fn device_rules(&self) -> Seq<RuleSpec> {
        models(self.device_regexes@)
    }

    pub closed spec fn cpu_rules(&self) -> Seq<RuleSpec> {
        models(self.cpu_regexes@)
    }

    pub closed spec fn engine_rules(&self) -> Seq<RuleSpec> {
        models(self.engine_regexes@)
    }

    /// Reads the list of regular expressions (YAML data) from a string.
    pub fn from_str(yaml: &str) -> (r: Result<UserAgentParser, UserAgentParserError>)
        ensures
            match r {
                Ok(p) => load(yaml@) == Ok::<_, Failure>(
                    (p.product_rules(), p.os_rules(), p.device_rules()),
                ) && p.cpu_rules() == cpu_rules() && p.engine_rules() == engine_rules(),
                Err(e) => load(yaml@) == Err::<(Seq<RuleSpec>, Seq<RuleSpec>, Seq<RuleSpec>), _>(
                    e.failure(),
                ),
            },
    {
        let docs = match load_documents(yaml) {
            Ok(docs) => docs,
            Err(e) => return Err(UserAgentParserError::ScanError(e)),
        };
        if docs.len() == 0 {
            return Err(UserAgentParserError::IncorrectSource);
        }
        let e = match &docs[0] {
            YamlNode::Mapping(e) => e,
            _ => return Err(UserAgentParserError::IncorrectSource),
        };
        let product_regexes = match get(e, "user_agent_parsers") {
            Some(node) => ProductRegex::from_yaml(node)?,
            None => Vec::new(),
        };
        let os_regexes = match get(e, "os_parsers") {
            Some(node) => OSRegex::from_yaml(node)?,
            None => Vec::new(),
        };
        let device_regexes = match get(e, "device_parsers") {
            Some(node) => DeviceRegex::from_yaml(node)?,
            None => Vec::new(),
        };
        let cpu_regexes = CPURegex::built_in_regexes()?;
        let engine_regexes = EngineRegex::built_in_regexes()?;
        proof {
            assert(models(Seq::<ProductRegex>::empty()) =~= Seq::<RuleSpec>::empty());
            assert(models(Seq::<OSRegex>::empty()) =~= Seq::<RuleSpec>::empty());
            assert(models(Seq::<DeviceRegex>::empty()) =~= Seq::<RuleSpec>::empty());
        }
        Ok(UserAgentParser {
            product_regexes,
            os_regexes,
            device_regexes,
            cpu_regexes,
            engine_regexes,
        })
    }

    /// The product of `user_agent`: the name, and the version in three parts.
    pub fn parse_product<'a>(&'a self, user_agent: &'a str) -> (r: Product<'a>)
        ensures
            r@ == or_other(classify(self.product_rules(), product_defaults(), user_agent@)),
            r.name is Some,
    {
        let mut product = Product { name: None, major: None, minor: None, patch: None };
        let ghost rules = self.product_rules();
        match find_first(&self.product_regexes, user_agent) {
            Some((i, caps)) => {
                let rule = &self.product_regexes[i];
                assert(rules[i as int] == rule.model());
                product.name = substitute(template(&rule.family_replacement), 1, &caps);
                product.major = substitute(template(&rule.v1_replacement), 2, &caps);
                product.minor = substitute(template(&rule.v2_replacement), 3, &caps);
                product.patch = substitute(template(&rule.v3_replacement), 4, &caps);
                assert(product@ =~= extract(rules[i as int], product_defaults(), caps.deep_view()));
            },
            None => {
                assert(product@ =~= Seq::new(4, |f: int| None::<Seq<char>>));
            },
        }
        let ghost found = product@;
        if product.name.is_none() {
            product.name = Some(Cow::Borrowed("Other"));
        }
        assert(product@ =~= or_other(found));
        product
    }

    /// The operating system of `user_agent`: the name, and the version in
    /// four parts.
    pub fn parse_os<'a>(&'a self, user_agent: &'a str) -> (r: OS<'a>)
        ensures
            r@ == or_other(classify(self.os_rules(), os_defaults(), user_agent@)),
            r.name is Some,
    {
        let mut os = OS { name: None, major: None, minor: None, patch: None, patch_minor: None };
        let ghost rules = self.os_rules();
        match find_first(&self.os_regexes, user_agent) {
            Some((i, caps)) => {
                let rule = &self.os_regexes[i];
                assert(rules[i as int] == rule.model());
                os.name = substitute(template(&rule.os_replacement), 1, &caps);
                os.major = substitute(template(&rule.os_v1_replacement), 2, &caps);
                os.minor = substitute(template(&rule.os_v2_replacement), 3, &caps);
                os.patch = substitute(template(&rule.os_v3_replacement), 4, &caps);
                os.patch_minor = substitute(template(&rule.os_v4_replacement), 5, &caps);
                assert(os@ =~= extract(rules[i as int], os_defaults(), caps.deep_view()));
            },
            None => {
                assert(os@ =~= Seq::new(5, |f: int| None::<Seq<char>>));
            },
        }
        let ghost found = os@;
        if os.name.is_none() {
            os.name = Some(Cow::Borrowed("Other"));
        }
        assert(os@ =~= or_other(found));
        os
    }

    /// The device of `user_agent`: its name, brand and model.
    pub fn parse_device<'a>(&'a self, user_agent: &'a str) -> (r: Device<'a>)
        ensures
            r@ == or_other(classify(self.device_rules(), device_defaults(), user_agent@)),
            r.name is Some,
    {
        let mut device = Device { name: None, brand: None, model: None };
        let ghost rules = self.device_rules();
        match find_first(&self.device_regexes, user_agent) {
            Some((i, caps)) => {
                let rule = &self.device_regexes[i];
                assert(rules[i as int] == rule.model());
                device.name = substitute(template(&rule.device_replacement), 1, &caps);
                device.brand = substitute(template(&rule.brand_replacement), 2, &caps);
                device.model = substitute(template(&rule.model_replacement), 1, &caps);
                assert(device@ =~= extract(rules[i as int], device_defaults(), caps.deep_view()));
            },
            None => {
                assert(device@ =~= Seq::new(3, |f: int| None::<Seq<char>>));
            },
        }
        let ghost found = device@;
        if device.name.is_none() {
            device.name = Some(Cow::Borrowed("Other"));
        }
        assert(device@ =~= or_other(found));
        device
    }

    /// The CPU architecture of `user_agent`; absent where no rule matches.
    pub fn parse_cpu<'a>(&'a self, user_agent: &'a str) -> (r: CPU<'a>)
        ensures
            self.cpu_rules() == cpu_rules(),
            r@ == classify(self.cpu_rules(), cpu_defaults(), user_agent@),
            first_match(self.cpu_rules(), user_agent@) is None ==> r.architecture is None,
            first_match(self.cpu_rules(), user_agent@) is Some ==> r.architecture is Some,
    {
        proof {
            use_type_invariant(self);
            lemma_architecture_names_fixed();
        }
        let mut cpu = CPU { architecture: None };
        let ghost rules = self.cpu_rules();
        match find_first(&self.cpu_regexes, user_agent) {
            Some((i, caps)) => {
                let rule = &self.cpu_regexes[i];
                assert(rules[i as int] == rule.model());
                cpu.architecture = substitute(template(&rule.architecture_replacement), 1, &caps);
                proof {
                    assert(rules[i as int] == cpu_rule(CPU_TABLE@[i as int]));
                    lemma_fixed_text_substitutes(CPU_TABLE@[i as int].1@, 1, caps.deep_view());
                    assert(rules[i as int].templates[0] == Some(CPU_TABLE@[i as int].1@));
                    assert(cpu.architecture.deep_view() == Some(CPU_TABLE@[i as int].1@));
                }
                assert(cpu@ =~= extract(rules[i as int], cpu_defaults(), caps.deep_view()));
            },
            None => {
                assert(cpu@ =~= Seq::new(1, |f: int| None::<Seq<char>>));
            },
        }
        cpu
    }

    /// The rendering engine of `user_agent`: the name, and the version in
    /// three parts; all absent where no rule matches.
    pub fn parse_engine<'a>(&'a self, user_agent: &'a str) -> (r: Engine<'a>)
        ensures
            self.engine_rules() == engine_rules(),
            r@ == classify(self.engine_rules(), engine_defaults(), user_agent@),
            first_match(self.engine_rules(), user_agent@) is None ==> r.name is None && r.major
                is None && r.minor is None && r.patch is None,
            first_match(self.engine_rules(), user_agent@) is Some ==> r.name is Some,
    {
        proof {
            use_type_invariant(self);
            lemma_engine_names_fixed();
        }
        let mut engine = Engine { name: None, major: None, minor: None, patch: None };
        let ghost rules = self.engine_rules();
        match find_first(&self.engine_regexes, user_agent) {
            Some((i, caps)) => {
                let rule = &self.engine_regexes[i];
                assert(rules[i as int] == rule.model());
                engine.name = substitute(template(&rule.name_replacement), 1, &caps);
                proof {
                    assert(rules[i as int] == engine_rule(ENGINE_TABLE@[i as int]));
                    lemma_fixed_text_substitutes(ENGINE_TABLE@[i as int].1@, 1, caps.deep_view());
                }
                engine.major = substitute(template(&rule.engine_v1_replacement), 2, &caps);
                engine.minor = substitute(template(&rule.engine_v2_replacement), 3, &caps);
                engine.patch = substitute(template(&rule.engine_v3_replacement), 4, &caps);
                assert(engine@ =~= extract(rules[i as int], engine_defaults(), caps.deep_view()));
            },
            None => {
                assert(engine@ =~= Seq::new(4, |f: int| None::<Seq<char>>));
            },
        }
        engine
    }
}

impl std::str::FromStr for UserAgentParser {
    type Err = UserAgentParserError;

    fn from_str(s: &str) -> Result<Self, Self::Err> {
        UserAgentParser::from_str(s)
    }
}

} // verus!
