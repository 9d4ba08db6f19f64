//! Identifying the chip that a flash configuration is meant for.
//!
//! A flash configuration names the vendor tool that programs the target and
//! carries that tool's own configuration. The chip is found by holding an
//! ordered table of rules, each a pattern and the model it stands for,
//! against that configuration: the first rule that matches decides, and
//! where none matches there is no chip.

use vstd::prelude::*;
use vstd::string::StringExecFns;
use crate::error::Error;
use crate::text::lines;
use crate::text::split_lines;

verus! {

/// One argument on the programming tool's command line.
#[derive(Clone, Debug)]
pub enum FlashArgument {
    /// Text passed as it is.
    Direct(String),
    /// The place of the image to program.
    Payload,
    /// The place of the image, written through a format under a key.
    FormattedPayload(String, String),
    /// The place of the tool's configuration.
    Config,
}

/// How OpenOCD is configured.
#[derive(Clone, Debug)]
pub enum FlashProgramConfig {
    /// The configuration is a file, named by its path components.
    Path(Vec<String>),
    /// The configuration is this text.
    Payload(String),
}

/// The vendor tool that programs the target.
#[derive(Clone, Debug)]
pub enum FlashProgram {
    /// pyOCD, with its arguments.
    PyOcd(Vec<FlashArgument>),
    /// OpenOCD, with its configuration.
    OpenOcd(FlashProgramConfig),
}

/// The flash configuration of an archive.
#[derive(Clone, Debug)]
pub struct FlashConfig {
    /// The tool to run.
    pub program: FlashProgram,
    /// The arguments to run it with.
    pub args: Vec<FlashArgument>,
}

/// The canonical model of a chip, such as a part number.
#[derive(Clone, Debug)]
pub struct ChipIdentity {
    /// The model.
    pub model: String,
}

/// A pattern, and the chip model that a text matching it stands for.
#[derive(Clone, Debug)]
pub struct ChipRule {
    /// A regular expression, searched for anywhere in a text.
    pub pattern: String,
    /// The model of the chip.
    pub chip: String,
}

/// The rules for each vendor tool, each list in priority order.
#[derive(Clone, Debug)]
pub struct ChipIdentifier {
    /// Held against each direct pyOCD argument.
    pub pyocd: Vec<ChipRule>,
    /// Held against each line of an OpenOCD configuration text.
    pub openocd: Vec<ChipRule>,
}

/// What searching `haystack` for the regular expression `pattern` gives:
/// `None` where `pattern` is no regular expression, or one too large to
/// compile; else whether it matches anywhere in `haystack`.
pub uninterp spec fn regex_search(pattern: Seq<char>, haystack: Seq<char>) -> Option<bool>;

/// Compiles `pattern` with `regex::Regex::new` and searches `haystack` with
/// `regex::Regex::is_match`. Both depend on their arguments alone; the
/// contract gives the outcome its name and claims nothing else of it.
#[verifier::external_body]
fn search(pattern: &str, haystack: &str) -> (found: Option<bool>)
    ensures
        found == regex_search(pattern@, haystack@),
{
    match regex::Regex::new(pattern) {
        Ok(re) => Some(re.is_match(haystack)),
        Err(_) => None,
    }
}

/// The lowest index at or after `from` at which `outcomes` holds a match.
pub open spec fn first_match_from(outcomes: Seq<Option<bool>>, from: int) -> Option<int>
    decreases outcomes.len() - from,
{
    if from < 0 || from >= outcomes.len() {
        None
    } else if outcomes[from] == Some(true) {
        Some(from)
    } else {
        first_match_from(outcomes, from + 1)
    }
}

/// What each rule of `rules` gives on `text`, in table order.
pub open spec fn rule_outcomes(rules: Seq<ChipRule>, text: Seq<char>) -> Seq<Option<bool>> {
    Seq::new(rules.len(), |i: int| regex_search(rules[i].pattern@, text))
}

/// The model that `rules` give for `text`: that of the first rule that
/// matches it.
pub open spec fn chip_of_text(rules: Seq<ChipRule>, text: Seq<char>) -> Option<Seq<char>> {
    match first_match_from(rule_outcomes(rules, text), 0) {
        Some(i) => Some(rules[i].chip@),
        None => None,
    }
}

/// What `rule` gives on each of `texts`, in the order of the texts.
pub open spec fn text_outcomes(rule: ChipRule, texts: Seq<Seq<char>>) -> Seq<Option<bool>> {
    Seq::new(texts.len(), |k: int| regex_search(rule.pattern@, texts[k]))
}

/// Whether `rule` matches any of `texts`.
pub open spec fn rule_found(rule: ChipRule, texts: Seq<Seq<char>>) -> bool {
    first_match_from(text_outcomes(rule, texts), 0) is Some
}

/// The index of the first rule, from index `from` on, that matches any of
/// `texts`.
pub open spec fn first_rule_found_from(rules: Seq<ChipRule>, texts: Seq<Seq<char>>, from: int)
    -> Option<int>
    decreases rules.len() - from,
{
    if from < 0 || from >= rules.len() {
        None
    } else if rule_found(rules[from], texts) {
        Some(from)
    } else {
        first_rule_found_from(rules, texts, from + 1)
    }
}

/// The model that `rules` give for `texts` taken together: that of the first
/// rule, in table order, that matches any of the texts. The order of the
/// texts does not count.
pub open spec fn chip_in_texts(rules: Seq<ChipRule>, texts: Seq<Seq<char>>) -> Option<Seq<char>> {
    match first_rule_found_from(rules, texts, 0) {
        Some(i) => Some(rules[i].chip@),
        None => None,
    }
}

/// The model that `rules` give for the first direct argument of `args`, from
/// index `from` on, that any rule matches. Other arguments are passed over.
pub open spec fn chip_in_arguments_from(rules: Seq<ChipRule>, args: Seq<FlashArgument>, from: int)
    -> Option<Seq<char>>
    decreases args.len() - from,
{
    if from < 0 || from >= args.len() {
        None
    } else {
        match args[from] {
            FlashArgument::Direct(text) => match chip_of_text(rules, text@) {
                Some(chip) => Some(chip),
                None => chip_in_arguments_from(rules, args, from + 1),
            },
            _ => chip_in_arguments_from(rules, args, from + 1),
        }
    }
}

/// Whether the pattern of `rule` is found in `text`.
pub open spec fn rule_matches(rule: ChipRule, text: Seq<char>) -> bool {
    regex_search(rule.pattern@, text) == Some(true)
}

/// Whether any of `rules` matches `text`.
pub open spec fn any_rule_matches(rules: Seq<ChipRule>, text: Seq<char>) -> bool {
    exists|i: int| 0 <= i < rules.len() && rule_matches(#[trigger] rules[i], text)
}

/// `first_match_from` gives the lowest index at or after `from` that holds a
/// match, and `None` exactly where there is no such index.
pub proof fn lemma_first_match_from(outcomes: Seq<Option<bool>>, from: int)
    requires
        0 <= from,
    ensures
        first_match_from(outcomes, from) matches Some(i) ==> from <= i < outcomes.len()
            && outcomes[i] == Some(true) && forall|j: int|
            from <= j < i ==> outcomes[j] != Some(true),
        first_match_from(outcomes, from) is None ==> forall|j: int|
            from <= j < outcomes.len() ==> outcomes[j] != Some(true),
    decreases outcomes.len() - from,
{
    if from < outcomes.len() && outcomes[from] != Some(true) {
        lemma_first_match_from(outcomes, from + 1);
    }
}

/// Within one text the first rule that matches decides: where rule `i`
/// matches `text` and no rule before it does, the table gives the model of
/// rule `i`.
pub proof fn law_first_matching_rule_decides(rules: Seq<ChipRule>, text: Seq<char>, i: int)
    requires
        0 <= i < rules.len(),
        rule_matches(rules[i], text),
        forall|j: int| 0 <= j < i ==> !rule_matches(#[trigger] rules[j], text),
    ensures
        chip_of_text(rules, text) == Some(rules[i].chip@),
{
    let outcomes = rule_outcomes(rules, text);
    lemma_first_match_from(outcomes, 0);
    assert(outcomes[i] == Some(true));
    assert(forall|j: int| 0 <= j < i ==> rule_matches(#[trigger] rules[j], text) == (outcomes[j]
        == Some(true)));
}

/// A text gets a chip exactly where some rule matches it.
pub proof fn law_chip_iff_some_rule_matches(rules: Seq<ChipRule>, text: Seq<char>)
    ensures
        chip_of_text(rules, text) is Some <==> any_rule_matches(rules, text),
{
    let outcomes = rule_outcomes(rules, text);
    lemma_first_match_from(outcomes, 0);
    if chip_of_text(rules, text) is Some {
        let i = first_match_from(outcomes, 0)->0;
        assert(rule_matches(rules[i], text));
    }
    if any_rule_matches(rules, text) {
        let i = choose|i: int| 0 <= i < rules.len() && rule_matches(#[trigger] rules[i], text);
        assert(outcomes[i] == Some(true));
    }
}

/// Whether `rule` matches any of `texts`.
pub open spec fn matches_any_text(rule: ChipRule, texts: Seq<Seq<char>>) -> bool {
    exists|k: int| 0 <= k < texts.len() && rule_matches(rule, #[trigger] texts[k])
}

/// `rule_found` says whether the rule matches any of the texts.
pub proof fn law_rule_found_iff_some_text_matches(rule: ChipRule, texts: Seq<Seq<char>>)
    ensures
        rule_found(rule, texts) <==> matches_any_text(rule, texts),
{
    let outcomes = text_outcomes(rule, texts);
    lemma_first_match_from(outcomes, 0);
    if rule_found(rule, texts) {
        let k = first_match_from(outcomes, 0)->0;
        assert(rule_matches(rule, texts[k]));
    }
    if matches_any_text(rule, texts) {
        let k = choose|k: int| 0 <= k < texts.len() && rule_matches(rule, #[trigger] texts[k]);
        assert(outcomes[k] == Some(true));
    }
}

/// `first_rule_found_from` gives the first rule at or after `from` that
/// matches any of the texts, and `None` exactly where there is none.
pub proof fn lemma_first_rule_found_from(rules: Seq<ChipRule>, texts: Seq<Seq<char>>, from: int)
    requires
        0 <= from,
    ensures
        first_rule_found_from(rules, texts, from) matches Some(i) ==> from <= i < rules.len()
            && matches_any_text(rules[i], texts) && forall|j: int|
            from <= j < i ==> !matches_any_text(#[trigger] rules[j], texts),
        first_rule_found_from(rules, texts, from) is None ==> forall|j: int|
            from <= j < rules.len() ==> !matches_any_text(#[trigger] rules[j], texts),
    decreases rules.len() - from,
{
    if from < rules.len() {
        law_rule_found_iff_some_text_matches(rules[from], texts);
        if !rule_found(rules[from], texts) {
            lemma_first_rule_found_from(rules, texts, from + 1);
        }
    }
}

/// Among several texts the first rule that matches any of them decides:
/// where rule `i` matches one of the texts and no rule before it matches
/// any, the texts get the model of rule `i`, whichever text it matches and
/// whatever later rules match.
pub proof fn law_first_matching_rule_wins_across_texts(
    rules: Seq<ChipRule>,
    texts: Seq<Seq<char>>,
    i: int,
)
    requires
        0 <= i < rules.len(),
        matches_any_text(rules[i], texts),
        forall|j: int| 0 <= j < i ==> !matches_any_text(#[trigger] rules[j], texts),
    ensures
        chip_in_texts(rules, texts) == Some(rules[i].chip@),
{
    lemma_first_rule_found_from(rules, texts, 0);
    match first_rule_found_from(rules, texts, 0) {
        Some(found) => {
            if found < i {
                assert(!matches_any_text(rules[found], texts));
            }
            if i < found {
                assert(!matches_any_text(rules[i], texts));
            }
        },
        None => {
            assert(!matches_any_text(rules[i], texts));
        },
    }
}

/// Texts get a chip exactly where some rule matches one of them: texts that
/// no rule matches get none.
pub proof fn law_chip_iff_some_text_matches(rules: Seq<ChipRule>, texts: Seq<Seq<char>>)
    ensures
        chip_in_texts(rules, texts) is Some <==> exists|i: int|
            0 <= i < rules.len() && matches_any_text(#[trigger] rules[i], texts),
{
    lemma_first_rule_found_from(rules, texts, 0);
}

/// Whether `arg` is a direct argument that some rule matches.
pub open spec fn argument_matches(rules: Seq<ChipRule>, arg: FlashArgument) -> bool {
    match arg {
        FlashArgument::Direct(text) => any_rule_matches(rules, text@),
        _ => false,
    }
}

/// Among pyOCD arguments the first direct one that any rule matches decides,
/// whatever the later arguments hold.
pub proof fn law_first_matching_argument_decides(
    rules: Seq<ChipRule>,
    args: Seq<FlashArgument>,
    k: int,
)
    requires
        0 <= k < args.len(),
        argument_matches(rules, args[k]),
        forall|j: int| 0 <= j < k ==> !argument_matches(rules, #[trigger] args[j]),
    ensures
        args[k] matches FlashArgument::Direct(text) && chip_in_arguments_from(rules, args, 0)
            == chip_of_text(rules, text@) && chip_of_text(rules, text@) is Some,
{
    lemma_arguments_before_hit(rules, args, k, 0);
}

proof fn lemma_arguments_before_hit(
    rules: Seq<ChipRule>,
    args: Seq<FlashArgument>,
    k: int,
    from: int,
)
    requires
        0 <= from <= k < args.len(),
        argument_matches(rules, args[k]),
        forall|j: int| 0 <= j < k ==> !argument_matches(rules, #[trigger] args[j]),
    ensures
        args[k] matches FlashArgument::Direct(text) && chip_in_arguments_from(rules, args, from)
            == chip_of_text(rules, text@) && chip_of_text(rules, text@) is Some,
    decreases k - from,
{
    if from < k {
        assert(!argument_matches(rules, args[from]));
        match args[from] {
            FlashArgument::Direct(text) => {
                law_chip_iff_some_rule_matches(rules, text@);
            },
            _ => {},
        }
        lemma_arguments_before_hit(rules, args, k, from + 1);
    } else {
        match args[k] {
            FlashArgument::Direct(text) => {
                law_chip_iff_some_rule_matches(rules, text@);
            },
            _ => {},
        }
    }
}

/// pyOCD arguments get a chip exactly where some rule matches a direct
/// argument among them.
pub proof fn law_chip_iff_some_argument_matches(rules: Seq<ChipRule>, args: Seq<FlashArgument>)
    ensures
        chip_in_arguments_from(rules, args, 0) is Some <==> exists|k: int|
            0 <= k < args.len() && argument_matches(rules, #[trigger] args[k]),
{
    lemma_arguments_none(rules, args, 0);
}

proof fn lemma_arguments_none(rules: Seq<ChipRule>, args: Seq<FlashArgument>, from: int)
    requires
        0 <= from,
    ensures
        chip_in_arguments_from(rules, args, from) is Some <==> exists|k: int|
            from <= k < args.len() && argument_matches(rules, #[trigger] args[k]),
    decreases args.len() - from,
{
    if from < args.len() {
        lemma_arguments_none(rules, args, from + 1);
        match args[from] {
            FlashArgument::Direct(text) => {
                law_chip_iff_some_rule_matches(rules, text@);
            },
            _ => {},
        }
        if argument_matches(rules, args[from]) {
            assert(chip_in_arguments_from(rules, args, from) is Some);
        } else {
            if exists|k: int|
                from <= k < args.len() && argument_matches(rules, #[trigger] args[k]) {
                let k = choose|k: int|
                    from <= k < args.len() && argument_matches(rules, #[trigger] args[k]);
                assert(from + 1 <= k);
            }
        }
    }
}

/// What [`ChipIdentifier::program_chip`] gives: the model that the tables
/// give for a flash program.
pub open spec fn program_chip_spec(table: ChipIdentifier, program: FlashProgram) -> Option<
    Seq<char>,
> {
    match program {
        FlashProgram::PyOcd(args) => chip_in_arguments_from(table.pyocd@, args@, 0),
        FlashProgram::OpenOcd(FlashProgramConfig::Payload(text)) => chip_in_texts(
            table.openocd@,
            lines(text@),
        ),
        FlashProgram::OpenOcd(FlashProgramConfig::Path(_)) => None,
    }
}

/// In an OpenOCD configuration text the first rule that matches any line
/// decides: where rule `i` matches line `k`, and no rule before it matches
/// any line, the chip is that of rule `i`, also where an earlier line
/// matches a later rule.
pub proof fn law_openocd_first_rule_wins(table: ChipIdentifier, text: String, i: int, k: int)
    requires
        0 <= i < table.openocd.len(),
        0 <= k < lines(text@).len(),
        rule_matches(table.openocd[i], lines(text@)[k]),
        forall|j: int| 0 <= j < i ==> !matches_any_text(#[trigger] table.openocd[j], lines(text@)),
    ensures
        program_chip_spec(table, FlashProgram::OpenOcd(FlashProgramConfig::Payload(text)))
            == Some(table.openocd[i].chip@),
{
    law_first_matching_rule_wins_across_texts(table.openocd@, lines(text@), i);
}

/// An OpenOCD configuration text with no line that any rule matches gets no
/// chip, and only such a text gets none.
pub proof fn law_openocd_no_match_no_chip(table: ChipIdentifier, text: String)
    ensures
        program_chip_spec(table, FlashProgram::OpenOcd(FlashProgramConfig::Payload(text)))
            is None <==> forall|i: int, k: int|
            0 <= i < table.openocd.len() && 0 <= k < lines(text@).len() ==> !rule_matches(
                #[trigger] table.openocd[i],
                #[trigger] lines(text@)[k],
            ),
{
    law_chip_iff_some_text_matches(table.openocd@, lines(text@));
    let rules = table.openocd@;
    let texts = lines(text@);
    if exists|i: int| 0 <= i < rules.len() && matches_any_text(#[trigger] rules[i], texts) {
        let i = choose|i: int| 0 <= i < rules.len() && matches_any_text(#[trigger] rules[i], texts);
        let k = choose|k: int| 0 <= k < texts.len() && rule_matches(rules[i], #[trigger] texts[k]);
        assert(rule_matches(table.openocd[i], lines(text@)[k]));
    }
    if exists|i: int, k: int|
        0 <= i < rules.len() && 0 <= k < texts.len() && rule_matches(
            #[trigger] rules[i],
            #[trigger] texts[k],
        ) {
        let (i, k) = choose|i: int, k: int|
            0 <= i < rules.len() && 0 <= k < texts.len() && rule_matches(
                #[trigger] rules[i],
                #[trigger] texts[k],
            );
        assert(matches_any_text(rules[i], texts));
    }
}

/// The patterns and models of `rules`, in table order.
pub open spec fn rule_pairs(rules: Seq<ChipRule>) -> Seq<(Seq<char>, Seq<char>)> {
    rules.map_values(|r: ChipRule| (r.pattern@, r.chip@))
}

/// The pyOCD rules that a new table holds.
pub open spec fn known_pyocd_rules() -> Seq<(Seq<char>, Seq<char>)> {
    seq![("lpc55s69"@, "LPC55S69JBD100"@), ("lpc55s28"@, "LPC55S28JBD64"@)]
}

/// The OpenOCD rules that a new table holds.
pub open spec fn known_openocd_rules() -> Seq<(Seq<char>, Seq<char>)> {
    seq![
        ("find target/stm32h7"@, "STM32H753ZITx"@),
        ("find target/stm32f3"@, "STM32F301C6Tx"@),
        ("find target/stm32f4"@, "STM32F401CBUx"@),
        ("find target/stm32g0"@, "STM32G030C6Tx"@),
    ]
}

/// The index of the first match among the outcomes of a table's rules on one
/// text, or `None` where no rule matched. A rule whose pattern did not
/// compile (`None`) counts as no match.
pub fn first_match(outcomes: &Vec<Option<bool>>) -> (hit: Option<usize>)
    ensures
        hit matches Some(i) ==> i < outcomes.len() && outcomes[i as int] == Some(true) && forall|
            j: int,
        |
            0 <= j < i ==> outcomes[j] != Some(true),
        hit is None ==> forall|j: int| 0 <= j < outcomes.len() ==> outcomes[j] != Some(true),
        hit is Some <==> first_match_from(outcomes@, 0) is Some,
        hit matches Some(i) ==> first_match_from(outcomes@, 0) == Some(i as int),
{
    let mut i: usize = 0;
    while i < outcomes.len()
        invariant
            i <= outcomes.len(),
            first_match_from(outcomes@, 0) == first_match_from(outcomes@, i as int),
            forall|j: int| 0 <= j < i ==> outcomes[j] != Some(true),
        decreases outcomes.len() - i,
    {
        match outcomes[i] {
            Some(true) => {
                return Some(i);
            },
            _ => {},
        }
        i += 1;
    }
    None
}

impl ChipRule {
    /// A rule that gives `chip` for a text in which `pattern` is found.
    pub fn new(pattern: &str, chip: &str) -> (rule: ChipRule)
        ensures
            rule.pattern@ == pattern@,
            rule.chip@ == chip@,
    {
        ChipRule { pattern: String::from_str(pattern), chip: String::from_str(chip) }
    }
}

impl ChipIdentifier {
    /// The table of the chips that are known.
    pub fn new() -> (table: ChipIdentifier)
        ensures
            rule_pairs(table.pyocd@) == known_pyocd_rules(),
            rule_pairs(table.openocd@) == known_openocd_rules(),
    {
        let mut pyocd: Vec<ChipRule> = Vec::new();
        pyocd.push(ChipRule::new("lpc55s69", "LPC55S69JBD100"));
        pyocd.push(ChipRule::new("lpc55s28", "LPC55S28JBD64"));
        let mut openocd: Vec<ChipRule> = Vec::new();
        openocd.push(ChipRule::new("find target/stm32h7", "STM32H753ZITx"));
        openocd.push(ChipRule::new("find target/stm32f3", "STM32F301C6Tx"));
        openocd.push(ChipRule::new("find target/stm32f4", "STM32F401CBUx"));
        openocd.push(ChipRule::new("find target/stm32g0", "STM32G030C6Tx"));
        assert(rule_pairs(pyocd@) =~= known_pyocd_rules());
        assert(rule_pairs(openocd@) =~= known_openocd_rules());
        ChipIdentifier { pyocd, openocd }
    }

    /// What each rule of `rules` gives on `text`, in table order.
    fn outcomes(rules: &Vec<ChipRule>, text: &str) -> (found: Vec<Option<bool>>)
        ensures
            found@ == rule_outcomes(rules@, text@),
    {
        let mut found: Vec<Option<bool>> = Vec::new();
        let mut i: usize = 0;
        while i < rules.len()
            invariant
                i <= rules.len(),
                found.len() == i,
                forall|j: int|
                    0 <= j < i ==> found[j] == regex_search(
                        (#[trigger] rules[j]).pattern@,
                        text@,
                    ),
            decreases rules.len() - i,
        {
            found.push(search(rules[i].pattern.as_str(), text));
            i += 1;
        }
        assert(found@ =~= rule_outcomes(rules@, text@));
        found
    }

    /// The chip that `rules` give for `text`: that of the first rule, in
    /// table order, whose pattern is found in `text`.
    pub fn text_chip(rules: &Vec<ChipRule>, text: &str) -> (chip: Option<ChipIdentity>)
        ensures
            chip is Some <==> chip_of_text(rules@, text@) is Some,
            chip matches Some(id) ==> chip_of_text(rules@, text@) == Some(id.model@),
    {
        let found = Self::outcomes(rules, text);
        match first_match(&found) {
            Some(i) => Some(ChipIdentity { model: rules[i].chip.clone() }),
            None => None,
        }
    }
    /// What `rule` gives on each of `texts`, in the order of the texts.
    fn text_results(rule: &ChipRule, texts: &Vec<&str>) -> (found: Vec<Option<bool>>)
        ensures
            found@ == text_outcomes(*rule, texts@.map_values(|t: &str| t@)),
    {
        let mut found: Vec<Option<bool>> = Vec::new();
        let mut k: usize = 0;
        while k < texts.len()
            invariant
                k <= texts.len(),
                found.len() == k,
                forall|j: int|
                    0 <= j < k ==> found[j] == regex_search(
                        rule.pattern@,
                        (#[trigger] texts[j])@,
                    ),
            decreases texts.len() - k,
        {
            found.push(search(rule.pattern.as_str(), texts[k]));
            k += 1;
        }
        assert(found@ =~= text_outcomes(*rule, texts@.map_values(|t: &str| t@)));
        found
    }

    /// The chip for `texts` taken together: that of the first rule, in table
    /// order, that matches any of the texts, whichever text that is.
    pub fn texts_chip(rules: &Vec<ChipRule>, texts: &Vec<&str>) -> (chip: Option<ChipIdentity>)
        ensures
            chip is Some <==> chip_in_texts(rules@, texts@.map_values(|t: &str| t@)) is Some,
            chip matches Some(id) ==> chip_in_texts(rules@, texts@.map_values(|t: &str| t@))
                == Some(id.model@),
    {
        let ghost views = texts@.map_values(|t: &str| t@);
        let mut i: usize = 0;
        while i < rules.len()
            invariant
                i <= rules.len(),
                views == texts@.map_values(|t: &str| t@),
                first_rule_found_from(rules@, views, 0) == first_rule_found_from(
                    rules@,
                    views,
                    i as int,
                ),
            decreases rules.len() - i,
        {
            let found = Self::text_results(&rules[i], texts);
            if first_match(&found).is_some() {
                return Some(ChipIdentity { model: rules[i].chip.clone() });
            }
            i += 1;
        }
        None
    }

    /// The chip for the first direct argument of `args` that any of `rules`
    /// matches. Arguments of the other kinds are passed over.
    pub fn arguments_chip(rules: &Vec<ChipRule>, args: &Vec<FlashArgument>) -> (chip: Option<
        ChipIdentity,
    >)
        ensures
            chip is Some <==> chip_in_arguments_from(rules@, args@, 0) is Some,
            chip matches Some(id) ==> chip_in_arguments_from(rules@, args@, 0) == Some(id.model@),
    {
        let mut k: usize = 0;
        while k < args.len()
            invariant
                k <= args.len(),
                chip_in_arguments_from(rules@, args@, 0) == chip_in_arguments_from(
                    rules@,
                    args@,
                    k as int,
                ),
            decreases args.len() - k,
        {
            match &args[k] {
                FlashArgument::Direct(text) => {
                    match Self::text_chip(rules, text.as_str()) {
                        Some(id) => {
                            return Some(id);
                        },
                        None => {},
                    }
                },
                _ => {},
            }
            k += 1;
        }
        None
    }

    /// The chip that a flash program is meant for.
    ///
    /// For OpenOCD the rules are held, in table order, against the lines of
    /// the configuration text: the first rule that matches any line decides.
    /// For pyOCD they are held against each direct argument in argument
    /// order: the first argument that any rule matches decides, by the first
    /// rule that matches it. An OpenOCD configuration given as a path holds
    /// no text and so gives no chip.
    pub fn program_chip(&self, program: &FlashProgram) -> (chip: Option<ChipIdentity>)
        ensures
            chip is Some <==> program_chip_spec(*self, *program) is Some,
            chip matches Some(id) ==> program_chip_spec(*self, *program) == Some(id.model@),
    {
        match program {
            FlashProgram::PyOcd(args) => Self::arguments_chip(&self.pyocd, args),
            FlashProgram::OpenOcd(FlashProgramConfig::Payload(text)) => {
                let pieces = split_lines(text.as_str());
                assert(pieces@.map_values(|t: &str| t@) =~= lines(text@));
                Self::texts_chip(&self.openocd, &pieces)
            },
            FlashProgram::OpenOcd(FlashProgramConfig::Path(_)) => None,
        }
    }

    /// The chip that a flash configuration is meant for, or
    /// [`Error::ChipNotIdentified`] where no rule matches: there is no
    /// default and no guess.
    pub fn identify(&self, config: &FlashConfig) -> (chip: Result<ChipIdentity, Error>)
        ensures
            chip is Ok <==> program_chip_spec(*self, config.program) is Some,
            chip matches Ok(id) ==> program_chip_spec(*self, config.program) == Some(id.model@),
            chip matches Err(e) ==> e == Error::ChipNotIdentified,
    {
        match self.program_chip(&config.program) {
            Some(id) => Ok(id),
            None => Err(Error::ChipNotIdentified),
        }
    }
}

} // verus!
