//! The built-in CPU and engine rules: a fixed taxonomy, the same for every
//! parser.

use vstd::prelude::*;

use crate::errors::{Failure, UserAgentParserError};
use crate::matcher::{pattern_compiles, Matcher};
use crate::rules::{models, Rule, RuleSpec};
use crate::substitution::{starts_with_placeholder, substitution, CaptureModel};

verus! {

/// CPU patterns with the architecture each one names, in the order they are
/// tried.
pub const CPU_TABLE: [(&'static str, &'static str); 14] = [
    (r"(?i)(?:(amd|x(?:(?:86|64)[_-])?|wow|win)64)[;)]", "amd64"),
    (r"(?i)(ia32(?=;))", "ia32"),
    (r"(?i)((?:i[346]|x)86)[;)]", "ia32"),
    (r"(?i)windows\s(ce|mobile);\sppc;", "arm"),
    (r"(?i)((?:ppc|powerpc)(?:64)?)(?:\smac|;|\))", "ppc"),
    (r"(sun4\w)[;)]", "sparc"),
    (r"(?i)(?:ia64;)", "ia64"),
    (r"(?i)(?:68k\))", "68k"),
    (r"(?i)arm(?:64|(?=v\d+[;l]))", "arm"),
    (r"(?i)(?=atmel\s)avr", "avr"),
    (r"(?i)irix(?:64)?", "irix"),
    (r"(?i)mips(?:64)?", "mips"),
    (r"(?i)sparc(?:64)?", "sparc"),
    (r"(?i)pa-risc", "pa-risc"),
];

/// Engine patterns with the engine each one names, in the order they are
/// tried. Groups 2 to 4 hold the version.
pub const ENGINE_TABLE: [(&'static str, &'static str); 16] = [
    (r"(?i)(windows.+\sedge)/(\w+)(?:\.(\w+))?(?:\.(\w+))?", "EdgeHTML"),
    (r"(?i)webkit/537\.36.+chrome/(?!27)", "Blink"),
    (r"(?i)(presto)/(\w+)(?:\.(\w+))?(?:\.(\w+))?", "Presto"),
    (r"(?i)(webkit)/(\w+)(?:\.(\w+))?(?:\.(\w+))?", "WebKit"),
    (r"(?i)(trident)/(\w+)(?:\.(\w+))?(?:\.(\w+))?", "Trident"),
    (r"(?i)(netfront)/(\w+)(?:\.(\w+))?(?:\.(\w+))?", "NetFront"),
    (r"(?i)(netsurf)/(\w+)(?:\.(\w+))?(?:\.(\w+))?", "NetSurf"),
    (r"(?i)(amaya)/(\w+)(?:\.(\w+))?(?:\.(\w+))?", "Amaya"),
    (r"(?i)(lynx)/(\w+)(?:\.(\w+))?(?:\.(\w+))?", "Lynx"),
    (r"(?i)(w3m)/(\w+)(?:\.(\w+))?(?:\.(\w+))?", "w3m"),
    (r"(?i)(goanna)/(\w+)(?:\.(\w+))?(?:\.(\w+))?", "Goanna"),
    (r"(?i)(khtml)[/\s]\(?(\w+)(?:\.(\w+))?(?:\.(\w+))?", "KHTML"),
    (r"(?i)(tasman)[/\s]\(?(\w+)(?:\.(\w+))?(?:\.(\w+))?", "Tasman"),
    (r"(?i)(links)[/\s]\(?(\w+)(?:\.(\w+))?(?:\.(\w+))?", "Links"),
    (r"(?i)(icab)[/\s]([23])(?:\.(\d+))?(?:\.(\d+))?", "iCab"),
    (r"(?i)(rv:)(\w+)(?:\.(\w+))?(?:\.(\w+))?(?:(?=\.)\w+)*.+gecko", "Gecko"),
];

/// Every pattern of `rules` compiles.
pub open spec fn all_compile(rules: Seq<RuleSpec>) -> bool {
    forall|k: int|
        0 <= k < rules.len() ==> #[trigger] pattern_compiles(rules[k].pattern, rules[k].ignore_case)
}

pub open spec fn cpu_rule(source: (&str, &str)) -> RuleSpec {
    RuleSpec { pattern: source.0@, ignore_case: false, templates: seq![Some(source.1@)] }
}

/// The built-in CPU rules.
pub open spec fn cpu_rules() -> Seq<RuleSpec> {
    CPU_TABLE@.map_values(|s: (&str, &str)| cpu_rule(s))
}

pub open spec fn engine_rule(source: (&str, &str)) -> RuleSpec {
    RuleSpec {
        pattern: source.0@,
        ignore_case: false,
        templates: seq![Some(source.1@), None, None, None],
    }
}

/// The built-in engine rules.
pub open spec fn engine_rules() -> Seq<RuleSpec> {
    ENGINE_TABLE@.map_values(|s: (&str, &str)| engine_rule(s))
}

/// Text that is not empty and holds no `$`: a template that stands for
/// itself.
pub open spec fn fixed_text(t: Seq<char>) -> bool {
    t.len() > 0 && forall|i: int| 0 <= i < t.len() ==> t[i] != '$'
}

/// A fixed template is the field's value, whatever was captured.
pub proof fn lemma_fixed_text_substitutes(t: Seq<char>, index: int, caps: CaptureModel)
    requires
        fixed_text(t),
    ensures
        substitution(Some(t), index, caps) == Some(t),
{
    assert forall|i: int| 0 <= i < t.len() implies !#[trigger] starts_with_placeholder(
        t.skip(i),
    ) by {
        if starts_with_placeholder(t.skip(i)) {
            assert(t.skip(i)[0] == t[i]);
        }
    }
}

/// Every architecture of the table is a fixed template: it names itself.
pub proof fn lemma_architecture_names_fixed()
    ensures
        forall|k: int| 0 <= k < 14 ==> fixed_text(#[trigger] CPU_TABLE@[k].1@),
{
    reveal_strlit("amd64");
    reveal_strlit("ia32");
    reveal_strlit("arm");
    reveal_strlit("ppc");
    reveal_strlit("sparc");
    reveal_strlit("ia64");
    reveal_strlit("68k");
    reveal_strlit("avr");
    reveal_strlit("irix");
    reveal_strlit("mips");
    reveal_strlit("pa-risc");
    assert(fixed_text(CPU_TABLE@[0].1@));
    assert(fixed_text(CPU_TABLE@[1].1@));
    assert(fixed_text(CPU_TABLE@[2].1@));
    assert(fixed_text(CPU_TABLE@[3].1@));
    assert(fixed_text(CPU_TABLE@[4].1@));
    assert(fixed_text(CPU_TABLE@[5].1@));
    assert(fixed_text(CPU_TABLE@[6].1@));
    assert(fixed_text(CPU_TABLE@[7].1@));
    assert(fixed_text(CPU_TABLE@[8].1@));
    assert(fixed_text(CPU_TABLE@[9].1@));
    assert(fixed_text(CPU_TABLE@[10].1@));
    assert(fixed_text(CPU_TABLE@[11].1@));
    assert(fixed_text(CPU_TABLE@[12].1@));
    assert(fixed_text(CPU_TABLE@[13].1@));
}

/// Every engine name of the table is a fixed template: it names itself.
pub proof fn lemma_engine_names_fixed()
    ensures
        forall|k: int| 0 <= k < 16 ==> fixed_text(#[trigger] ENGINE_TABLE@[k].1@),
{
    reveal_strlit("EdgeHTML");
    reveal_strlit("Blink");
    reveal_strlit("Presto");
    reveal_strlit("WebKit");
    reveal_strlit("Trident");
    reveal_strlit("NetFront");
    reveal_strlit("NetSurf");
    reveal_strlit("Amaya");
    reveal_strlit("Lynx");
    reveal_strlit("w3m");
    reveal_strlit("Goanna");
    reveal_strlit("KHTML");
    reveal_strlit("Tasman");
    reveal_strlit("Links");
    reveal_strlit("iCab");
    reveal_strlit("Gecko");
    assert(fixed_text(ENGINE_TABLE@[0].1@));
    assert(fixed_text(ENGINE_TABLE@[1].1@));
    assert(fixed_text(ENGINE_TABLE@[2].1@));
    assert(fixed_text(ENGINE_TABLE@[3].1@));
    assert(fixed_text(ENGINE_TABLE@[4].1@));
    assert(fixed_text(ENGINE_TABLE@[5].1@));
    assert(fixed_text(ENGINE_TABLE@[6].1@));
    assert(fixed_text(ENGINE_TABLE@[7].1@));
    assert(fixed_text(ENGINE_TABLE@[8].1@));
    assert(fixed_text(ENGINE_TABLE@[9].1@));
    assert(fixed_text(ENGINE_TABLE@[10].1@));
    assert(fixed_text(ENGINE_TABLE@[11].1@));
    assert(fixed_text(ENGINE_TABLE@[12].1@));
    assert(fixed_text(ENGINE_TABLE@[13].1@));
    assert(fixed_text(ENGINE_TABLE@[14].1@));
    assert(fixed_text(ENGINE_TABLE@[15].1@));
}

/// A rule for the CPU architecture.
#[derive(Debug)]
pub struct CPURegex {
    pub regex: Matcher,
    pub architecture_replacement: Option<String>,
}

impl Rule for CPURegex {
    open spec fn model(&self) -> RuleSpec {
        RuleSpec {
            pattern: self.regex.pattern(),
            ignore_case: self.regex.ignore_case(),
            templates: seq![self.architecture_replacement.deep_view()],
        }
    }

    fn regex(&self) -> (m: &Matcher) {
        &self.regex
    }
}

impl CPURegex {
    /// Compiles the built-in CPU rules.
    pub fn built_in_regexes() -> (r: Result<Vec<CPURegex>, UserAgentParserError>)
        ensures
            r is Ok <==> all_compile(cpu_rules()),
            r matches Ok(v) ==> models(v@) == cpu_rules(),
            r matches Err(e) ==> e.failure() == Failure::BadPattern,
    {
        let table = CPU_TABLE;
        let mut rules: Vec<CPURegex> = Vec::new();
        let mut i: usize = 0;
        assert(models(rules@) =~= cpu_rules().take(0));
        while i < 14
            invariant
                i <= 14,
                table@ == CPU_TABLE@,
                models(rules@) == cpu_rules().take(i as int),
                forall|k: int|
                    0 <= k < i ==> #[trigger] pattern_compiles(
                        cpu_rules()[k].pattern,
                        cpu_rules()[k].ignore_case,
                    ),
            decreases 14 - i,
        {
            let (pattern, architecture) = table[i];
            assert(cpu_rules()[i as int] == cpu_rule(table@[i as int]));
            match Matcher::new(pattern, false) {
                Ok(regex) => {
                    let rule = CPURegex { regex, architecture_replacement: Some(architecture.to_owned()) };
                    let ghost before = rules@;
                    rules.push(rule);
                    assert(models(rules@) =~= cpu_rules().take(i + 1)) by {
                        assert(models(rules@) =~= models(before).push(rule.model()));
                    }
                },
                Err(e) => {
                    assert(!pattern_compiles(
                        cpu_rules()[i as int].pattern,
                        cpu_rules()[i as int].ignore_case,
                    ));
                    return Err(UserAgentParserError::RegexError(e));
                },
            }
            i = i + 1;
        }
        assert(cpu_rules().take(14) =~= cpu_rules());
        Ok(rules)
    }
}

/// A rule for the rendering engine.
#[derive(Debug)]
pub struct EngineRegex {
    pub regex: Matcher,
    pub name_replacement: Option<String>,
    pub engine_v1_replacement: Option<String>,
    pub engine_v2_replacement: Option<String>,
    pub engine_v3_replacement: Option<String>,
}

impl Rule for EngineRegex {
    open spec fn model(&self) -> RuleSpec {
        RuleSpec {
            pattern: self.regex.pattern(),
            ignore_case: self.regex.ignore_case(),
            templates: seq![
                self.name_replacement.deep_view(),
                self.engine_v1_replacement.deep_view(),
                self.engine_v2_replacement.deep_view(),
                self.engine_v3_replacement.deep_view(),
            ],
        }
    }

    fn regex(&self) -> (m: &Matcher) {
        &self.regex
    }
}

impl EngineRegex {
    /// Compiles the built-in engine rules.
    pub fn built_in_regexes() -> (r: Result<Vec<EngineRegex>, UserAgentParserError>)
        ensures
            r is Ok <==> all_compile(engine_rules()),
            r matches Ok(v) ==> models(v@) == engine_rules(),
            r matches Err(e) ==> e.failure() == Failure::BadPattern,
    {
        let table = ENGINE_TABLE;
        let mut rules: Vec<EngineRegex> = Vec::new();
        let mut i: usize = 0;
        assert(models(rules@) =~= engine_rules().take(0));
        while i < 16
            invariant
                i <= 16,
                table@ == ENGINE_TABLE@,
                models(rules@) == engine_rules().take(i as int),
                forall|k: int|
                    0 <= k < i ==> #[trigger] pattern_compiles(
                        engine_rules()[k].pattern,
                        engine_rules()[k].ignore_case,
                    ),
            decreases 16 - i,
        {
            let (pattern, name) = table[i];
            assert(engine_rules()[i as int] == engine_rule(table@[i as int]));
            match Matcher::new(pattern, false) {
                Ok(regex) => {
                    let rule = EngineRegex {
                        regex,
                        name_replacement: Some(name.to_owned()),
                        engine_v1_replacement: None,
                        engine_v2_replacement: None,
                        engine_v3_replacement: None,
                    };
                    let ghost before = rules@;
                    rules.push(rule);
                    assert(models(rules@) =~= engine_rules().take(i + 1)) by {
                        assert(models(rules@) =~= models(before).push(rule.model()));
                    }
                },
                Err(e) => {
                    assert(!pattern_compiles(
                        engine_rules()[i as int].pattern,
                        engine_rules()[i as int].ignore_case,
                    ));
                    return Err(UserAgentParserError::RegexError(e));
                },
            }
            i = i + 1;
        }
        assert(engine_rules().take(16) =~= engine_rules());
        Ok(rules)
    }
}

} // verus!
