//! Reading back a lone tag: the pair an annotation flattens to, read on its
//! own, gives exactly that annotation and no warning.

use vstd::prelude::*;

use crate::constraints::PairView;
use crate::ontology::{
    canonical_tag_key, is_key_char, lemma_key_chars_fixed, lemma_mapped_unlisted, tag_key_table,
};
use crate::tag_parser::{
    comment_body, comment_pairs, lemma_pair_read_back, lookup, outcome_annotations, outcome_warnings,
    read_back, scan_pairs, tag_outcome, tag_outcomes, token_value, TagOutcome,
};
use crate::tags::{pair_of, AnnotationView};
use crate::text::{
    decimal, lemma_parse_decimal, find_char, find_white_space, is_white_space, lemma_find_char_is, lemma_find_white_space_is,
    strip_leading, strip_trailing, trim, trim_end, trim_start,
};

verus! {

/// The tag key each entry of the outcome table reads first, in table order.
pub open spec fn outcome_keys() -> Seq<Seq<char>> {
    seq![
        "character"@,
        "setting"@,
        "beat"@,
        "thread"@,
        "plot_type"@,
        "collision_pattern"@,
        "trope"@,
        "diegetic_level"@,
        "consciousness"@,
        "speech_act"@,
        "gaze"@,
        "pact"@,
        "actant"@,
        "psychic_distance"@,
        "tension"@,
        "subtext"@,
        "flag"@,
        "motif"@,
        "chapter"@,
        "speaker"@,
        "tone"@,
        "ambience"@,
        "music"@,
        "sfx"@,
        "delivery"@,
        "paratext_zone"@,
        "temporal_order"@,
        "temporal_duration"@,
        "temporal_frequency"@,
        "reader_effect"@,
        "intertextual"@,
        "bloom_mode"@,
        "metaphor"@,
        "irony"@,
        "comic_mode"@,
        "comedy_theory"@,
        "trauma_mode"@,
        "recovery_stage"@,
        "pentad_element"@,
        "pentad_ratio"@,
        "burke_form"@,
        "emplotment"@,
        "mimesis"@,
        "spatial_practice"@,
        "ethics"@,
        "cultural_structure"@,
        "survivrance"@,
        "queer_time"@,
        "disability_rep"@,
        "affect"@,
        "transitivity"@,
        "jakobson"@,
        "sign_type"@,
        "ya_narrator"@,
        "revision_pass"@,
        "serial_arc"@,
        "freudian"@,
        "lacan_register"@,
        "abject"@,
        "postcolonial"@,
        "ecocritical"@,
        "image_schema"@,
        "defamiliarize"@,
        "semiotic_pos"@,
        "experimental"@,
        "posthuman"@,
        "marxist_mode"@,
        "feminist"@,
        "signifying"@,
        "cognitive"@,
        "prosodic"@,
        "propp"@,
        "performativity"@,
        "autofiction"@,
        "narrative_ethics"@,
        "transmedia"@,
        "accessibility"@,
        "adaptation"@,
        "gricean"@,
        "intimate_space"@,
        "multilingual"@,
        "panel_transition"@,
        "storywork"@,
        "translation"@,
        "visual_verbal"@,
        "genre_reading"@,
        "scene_function"@,
        "scene_type"@,
        "conflict"@,
        "arc"@,
        "arc_pattern"@,
        "outcome"@,
        "sense"@,
        "time_of_day"@,
        "weather"@,
        "world_delivery"@,
        "pov"@,
        "focalization_type"@,
        "knowledge"@,
        "reliability"@,
        "engagement"@,
        "narrative_distance"@,
        "voice_structure"@,
        "sentence_length"@,
        "sentence_type"@,
        "sentence_arch"@,
        "vocabulary"@,
        "profanity"@,
        "opening_type"@,
        "question_delivery"@,
        "complexity"@,
        "displacement"@,
        "non_response"@,
        "drive_model"@,
        "stage"@
    ]
}

/// The position of a key in [`outcome_keys`], or the table length for a key
/// that no entry reads first.
pub open spec fn key_index(k: Seq<char>) -> int {
    if k == "character"@ {
        0
    } else if k == "setting"@ {
        1
    } else if k == "beat"@ {
        2
    } else if k == "thread"@ {
        3
    } else if k == "plot_type"@ {
        4
    } else if k == "collision_pattern"@ {
        5
    } else if k == "trope"@ {
        6
    } else if k == "diegetic_level"@ {
        7
    } else if k == "consciousness"@ {
        8
    } else if k == "speech_act"@ {
        9
    } else if k == "gaze"@ {
        10
    } else if k == "pact"@ {
        11
    } else if k == "actant"@ {
        12
    } else if k == "psychic_distance"@ {
        13
    } else if k == "tension"@ {
        14
    } else if k == "subtext"@ {
        15
    } else if k == "flag"@ {
        16
    } else if k == "motif"@ {
        17
    } else if k == "chapter"@ {
        18
    } else if k == "speaker"@ {
        19
    } else if k == "tone"@ {
        20
    } else if k == "ambience"@ {
        21
    } else if k == "music"@ {
        22
    } else if k == "sfx"@ {
        23
    } else if k == "delivery"@ {
        24
    } else if k == "paratext_zone"@ {
        25
    } else if k == "temporal_order"@ {
        26
    } else if k == "temporal_duration"@ {
        27
    } else if k == "temporal_frequency"@ {
        28
    } else if k == "reader_effect"@ {
        29
    } else if k == "intertextual"@ {
        30
    } else if k == "bloom_mode"@ {
        31
    } else if k == "metaphor"@ {
        32
    } else if k == "irony"@ {
        33
    } else if k == "comic_mode"@ {
        34
    } else if k == "comedy_theory"@ {
        35
    } else if k == "trauma_mode"@ {
        36
    } else if k == "recovery_stage"@ {
        37
    } else if k == "pentad_element"@ {
        38
    } else if k == "pentad_ratio"@ {
        39
    } else if k == "burke_form"@ {
        40
    } else if k == "emplotment"@ {
        41
    } else if k == "mimesis"@ {
        42
    } else if k == "spatial_practice"@ {
        43
    } else if k == "ethics"@ {
        44
    } else if k == "cultural_structure"@ {
        45
    } else if k == "survivrance"@ {
        46
    } else if k == "queer_time"@ {
        47
    } else if k == "disability_rep"@ {
        48
    } else if k == "affect"@ {
        49
    } else if k == "transitivity"@ {
        50
    } else if k == "jakobson"@ {
        51
    } else if k == "sign_type"@ {
        52
    } else if k == "ya_narrator"@ {
        53
    } else if k == "revision_pass"@ {
        54
    } else if k == "serial_arc"@ {
        55
    } else if k == "freudian"@ {
        56
    } else if k == "lacan_register"@ {
        57
    } else if k == "abject"@ {
        58
    } else if k == "postcolonial"@ {
        59
    } else if k == "ecocritical"@ {
        60
    } else if k == "image_schema"@ {
        61
    } else if k == "defamiliarize"@ {
        62
    } else if k == "semiotic_pos"@ {
        63
    } else if k == "experimental"@ {
        64
    } else if k == "posthuman"@ {
        65
    } else if k == "marxist_mode"@ {
        66
    } else if k == "feminist"@ {
        67
    } else if k == "signifying"@ {
        68
    } else if k == "cognitive"@ {
        69
    } else if k == "prosodic"@ {
        70
    } else if k == "propp"@ {
        71
    } else if k == "performativity"@ {
        72
    } else if k == "autofiction"@ {
        73
    } else if k == "narrative_ethics"@ {
        74
    } else if k == "transmedia"@ {
        75
    } else if k == "accessibility"@ {
        76
    } else if k == "adaptation"@ {
        77
    } else if k == "gricean"@ {
        78
    } else if k == "intimate_space"@ {
        79
    } else if k == "multilingual"@ {
        80
    } else if k == "panel_transition"@ {
        81
    } else if k == "storywork"@ {
        82
    } else if k == "translation"@ {
        83
    } else if k == "visual_verbal"@ {
        84
    } else if k == "genre_reading"@ {
        85
    } else if k == "scene_function"@ {
        86
    } else if k == "scene_type"@ {
        87
    } else if k == "conflict"@ {
        88
    } else if k == "arc"@ {
        89
    } else if k == "arc_pattern"@ {
        90
    } else if k == "outcome"@ {
        91
    } else if k == "sense"@ {
        92
    } else if k == "time_of_day"@ {
        93
    } else if k == "weather"@ {
        94
    } else if k == "world_delivery"@ {
        95
    } else if k == "pov"@ {
        96
    } else if k == "focalization_type"@ {
        97
    } else if k == "knowledge"@ {
        98
    } else if k == "reliability"@ {
        99
    } else if k == "engagement"@ {
        100
    } else if k == "narrative_distance"@ {
        101
    } else if k == "voice_structure"@ {
        102
    } else if k == "sentence_length"@ {
        103
    } else if k == "sentence_type"@ {
        104
    } else if k == "sentence_arch"@ {
        105
    } else if k == "vocabulary"@ {
        106
    } else if k == "profanity"@ {
        107
    } else if k == "opening_type"@ {
        108
    } else if k == "question_delivery"@ {
        109
    } else if k == "complexity"@ {
        110
    } else if k == "displacement"@ {
        111
    } else if k == "non_response"@ {
        112
    } else if k == "drive_model"@ {
        113
    } else if k == "stage"@ {
        114
    } else {
        115
    }
}

proof fn lemma_key_shapes()
    ensures
        "character"@.len() == 9,
        "character"@[0] == 'c',
        "character"@[1] == 'h',
        "character"@[8] == 'r',
        "setting"@.len() == 7,
        "setting"@[0] == 's',
        "setting"@[1] == 'e',
        "setting"@[6] == 'g',
        "beat"@.len() == 4,
        "beat"@[0] == 'b',
        "beat"@[1] == 'e',
        "beat"@[3] == 't',
        "thread"@.len() == 6,
        "thread"@[0] == 't',
        "thread"@[1] == 'h',
        "thread"@[5] == 'd',
        "plot_type"@.len() == 9,
        "plot_type"@[0] == 'p',
        "plot_type"@[1] == 'l',
        "plot_type"@[8] == 'e',
        "collision_pattern"@.len() == 17,
        "collision_pattern"@[0] == 'c',
        "collision_pattern"@[1] == 'o',
        "collision_pattern"@[16] == 'n',
        "trope"@.len() == 5,
        "trope"@[0] == 't',
        "trope"@[1] == 'r',
        "trope"@[4] == 'e',
        "diegetic_level"@.len() == 14,
        "diegetic_level"@[0] == 'd',
        "diegetic_level"@[1] == 'i',
        "diegetic_level"@[13] == 'l',
        "consciousness"@.len() == 13,
        "consciousness"@[0] == 'c',
        "consciousness"@[1] == 'o',
        "consciousness"@[12] == 's',
        "speech_act"@.len() == 10,
        "speech_act"@[0] == 's',
        "speech_act"@[1] == 'p',
        "speech_act"@[9] == 't',
        "gaze"@.len() == 4,
        "gaze"@[0] == 'g',
        "gaze"@[1] == 'a',
        "gaze"@[3] == 'e',
        "pact"@.len() == 4,
        "pact"@[0] == 'p',
        "pact"@[1] == 'a',
        "pact"@[3] == 't',
        "actant"@.len() == 6,
        "actant"@[0] == 'a',
        "actant"@[1] == 'c',
        "actant"@[5] == 't',
        "psychic_distance"@.len() == 16,
        "psychic_distance"@[0] == 'p',
        "psychic_distance"@[1] == 's',
        "psychic_distance"@[15] == 'e',
        "tension"@.len() == 7,
        "tension"@[0] == 't',
        "tension"@[1] == 'e',
        "tension"@[6] == 'n',
        "subtext"@.len() == 7,
        "subtext"@[0] == 's',
        "subtext"@[1] == 'u',
        "subtext"@[6] == 't',
        "flag"@.len() == 4,
        "flag"@[0] == 'f',
        "flag"@[1] == 'l',
        "flag"@[3] == 'g',
        "motif"@.len() == 5,
        "motif"@[0] == 'm',
        "motif"@[1] == 'o',
        "motif"@[4] == 'f',
        "chapter"@.len() == 7,
        "chapter"@[0] == 'c',
        "chapter"@[1] == 'h',
        "chapter"@[6] == 'r',
        "speaker"@.len() == 7,
        "speaker"@[0] == 's',
        "speaker"@[1] == 'p',
        "speaker"@[6] == 'r',
        "tone"@.len() == 4,
        "tone"@[0] == 't',
        "tone"@[1] == 'o',
        "tone"@[3] == 'e',
        "ambience"@.len() == 8,
        "ambience"@[0] == 'a',
        "ambience"@[1] == 'm',
        "ambience"@[7] == 'e',
        "music"@.len() == 5,
        "music"@[0] == 'm',
        "music"@[1] == 'u',
        "music"@[4] == 'c',
        "sfx"@.len() == 3,
        "sfx"@[0] == 's',
        "sfx"@[1] == 'f',
        "sfx"@[2] == 'x',
        "delivery"@.len() == 8,
        "delivery"@[0] == 'd',
        "delivery"@[1] == 'e',
        "delivery"@[7] == 'y',
        "paratext_zone"@.len() == 13,
        "paratext_zone"@[0] == 'p',
        "paratext_zone"@[1] == 'a',
        "paratext_zone"@[12] == 'e',
        "temporal_order"@.len() == 14,
        "temporal_order"@[0] == 't',
        "temporal_order"@[1] == 'e',
        "temporal_order"@[13] == 'r',
        "temporal_duration"@.len() == 17,
        "temporal_duration"@[0] == 't',
        "temporal_duration"@[1] == 'e',
        "temporal_duration"@[16] == 'n',
        "temporal_frequency"@.len() == 18,
        "temporal_frequency"@[0] == 't',
        "temporal_frequency"@[1] == 'e',
        "temporal_frequency"@[17] == 'y',
        "reader_effect"@.len() == 13,
        "reader_effect"@[0] == 'r',
        "reader_effect"@[1] == 'e',
        "reader_effect"@[12] == 't',
        "intertextual"@.len() == 12,
        "intertextual"@[0] == 'i',
        "intertextual"@[1] == 'n',
        "intertextual"@[11] == 'l',
        "bloom_mode"@.len() == 10,
        "bloom_mode"@[0] == 'b',
        "bloom_mode"@[1] == 'l',
        "bloom_mode"@[9] == 'e',
        "metaphor"@.len() == 8,
        "metaphor"@[0] == 'm',
        "metaphor"@[1] == 'e',
        "metaphor"@[7] == 'r',
        "irony"@.len() == 5,
        "irony"@[0] == 'i',
        "irony"@[1] == 'r',
        "irony"@[4] == 'y',
        "comic_mode"@.len() == 10,
        "comic_mode"@[0] == 'c',
        "comic_mode"@[1] == 'o',
        "comic_mode"@[9] == 'e',
        "comedy_theory"@.len() == 13,
        "comedy_theory"@[0] == 'c',
        "comedy_theory"@[1] == 'o',
        "comedy_theory"@[12] == 'y',
        "trauma_mode"@.len() == 11,
        "trauma_mode"@[0] == 't',
        "trauma_mode"@[1] == 'r',
        "trauma_mode"@[10] == 'e',
        "recovery_stage"@.len() == 14,
        "recovery_stage"@[0] == 'r',
        "recovery_stage"@[1] == 'e',
        "recovery_stage"@[13] == 'e',
        "pentad_element"@.len() == 14,
        "pentad_element"@[0] == 'p',
        "pentad_element"@[1] == 'e',
        "pentad_element"@[13] == 't',
        "pentad_ratio"@.len() == 12,
        "pentad_ratio"@[0] == 'p',
        "pentad_ratio"@[1] == 'e',
        "pentad_ratio"@[11] == 'o',
        "burke_form"@.len() == 10,
        "burke_form"@[0] == 'b',
        "burke_form"@[1] == 'u',
        "burke_form"@[9] == 'm',
        "emplotment"@.len() == 10,
        "emplotment"@[0] == 'e',
        "emplotment"@[1] == 'm',
        "emplotment"@[9] == 't',
        "mimesis"@.len() == 7,
        "mimesis"@[0] == 'm',
        "mimesis"@[1] == 'i',
        "mimesis"@[6] == 's',
        "spatial_practice"@.len() == 16,
        "spatial_practice"@[0] == 's',
        "spatial_practice"@[1] == 'p',
        "spatial_practice"@[15] == 'e',
        "ethics"@.len() == 6,
        "ethics"@[0] == 'e',
        "ethics"@[1] == 't',
        "ethics"@[5] == 's',
        "cultural_structure"@.len() == 18,
        "cultural_structure"@[0] == 'c',
        "cultural_structure"@[1] == 'u',
        "cultural_structure"@[17] == 'e',
        "survivrance"@.len() == 11,
        "survivrance"@[0] == 's',
        "survivrance"@[1] == 'u',
        "survivrance"@[10] == 'e',
        "queer_time"@.len() == 10,
        "queer_time"@[0] == 'q',
        "queer_time"@[1] == 'u',
        "queer_time"@[9] == 'e',
        "disability_rep"@.len() == 14,
        "disability_rep"@[0] == 'd',
        "disability_rep"@[1] == 'i',
        "disability_rep"@[13] == 'p',
        "affect"@.len() == 6,
        "affect"@[0] == 'a',
        "affect"@[1] == 'f',
        "affect"@[5] == 't',
        "transitivity"@.len() == 12,
        "transitivity"@[0] == 't',
        "transitivity"@[1] == 'r',
        "transitivity"@[11] == 'y',
        "jakobson"@.len() == 8,
        "jakobson"@[0] == 'j',
        "jakobson"@[1] == 'a',
        "jakobson"@[7] == 'n',
        "sign_type"@.len() == 9,
        "sign_type"@[0] == 's',
        "sign_type"@[1] == 'i',
        "sign_type"@[8] == 'e',
        "ya_narrator"@.len() == 11,
        "ya_narrator"@[0] == 'y',
        "ya_narrator"@[1] == 'a',
        "ya_narrator"@[10] == 'r',
        "revision_pass"@.len() == 13,
        "revision_pass"@[0] == 'r',
        "revision_pass"@[1] == 'e',
        "revision_pass"@[12] == 's',
        "serial_arc"@.len() == 10,
        "serial_arc"@[0] == 's',
        "serial_arc"@[1] == 'e',
        "serial_arc"@[9] == 'c',
        "freudian"@.len() == 8,
        "freudian"@[0] == 'f',
        "freudian"@[1] == 'r',
        "freudian"@[7] == 'n',
        "lacan_register"@.len() == 14,
        "lacan_register"@[0] == 'l',
        "lacan_register"@[1] == 'a',
        "lacan_register"@[13] == 'r',
        "abject"@.len() == 6,
        "abject"@[0] == 'a',
        "abject"@[1] == 'b',
        "abject"@[5] == 't',
        "postcolonial"@.len() == 12,
        "postcolonial"@[0] == 'p',
        "postcolonial"@[1] == 'o',
        "postcolonial"@[11] == 'l',
        "ecocritical"@.len() == 11,
        "ecocritical"@[0] == 'e',
        "ecocritical"@[1] == 'c',
        "ecocritical"@[10] == 'l',
        "image_schema"@.len() == 12,
        "image_schema"@[0] == 'i',
        "image_schema"@[1] == 'm',
        "image_schema"@[11] == 'a',
        "defamiliarize"@.len() == 13,
        "defamiliarize"@[0] == 'd',
        "defamiliarize"@[1] == 'e',
        "defamiliarize"@[12] == 'e',
        "semiotic_pos"@.len() == 12,
        "semiotic_pos"@[0] == 's',
        "semiotic_pos"@[1] == 'e',
        "semiotic_pos"@[11] == 's',
        "experimental"@.len() == 12,
        "experimental"@[0] == 'e',
        "experimental"@[1] == 'x',
        "experimental"@[11] == 'l',
        "posthuman"@.len() == 9,
        "posthuman"@[0] == 'p',
        "posthuman"@[1] == 'o',
        "posthuman"@[8] == 'n',
        "marxist_mode"@.len() == 12,
        "marxist_mode"@[0] == 'm',
        "marxist_mode"@[1] == 'a',
        "marxist_mode"@[11] == 'e',
        "feminist"@.len() == 8,
        "feminist"@[0] == 'f',
        "feminist"@[1] == 'e',
        "feminist"@[7] == 't',
        "signifying"@.len() == 10,
        "signifying"@[0] == 's',
        "signifying"@[1] == 'i',
        "signifying"@[9] == 'g',
        "cognitive"@.len() == 9,
        "cognitive"@[0] == 'c',
        "cognitive"@[1] == 'o',
        "cognitive"@[8] == 'e',
        "prosodic"@.len() == 8,
        "prosodic"@[0] == 'p',
        "prosodic"@[1] == 'r',
        "prosodic"@[7] == 'c',
        "propp"@.len() == 5,
        "propp"@[0] == 'p',
        "propp"@[1] == 'r',
        "propp"@[4] == 'p',
        "performativity"@.len() == 14,
        "performativity"@[0] == 'p',
        "performativity"@[1] == 'e',
        "performativity"@[13] == 'y',
        "autofiction"@.len() == 11,
        "autofiction"@[0] == 'a',
        "autofiction"@[1] == 'u',
        "autofiction"@[10] == 'n',
        "narrative_ethics"@.len() == 16,
        "narrative_ethics"@[0] == 'n',
        "narrative_ethics"@[1] == 'a',
        "narrative_ethics"@[15] == 's',
        "transmedia"@.len() == 10,
        "transmedia"@[0] == 't',
        "transmedia"@[1] == 'r',
        "transmedia"@[9] == 'a',
        "accessibility"@.len() == 13,
        "accessibility"@[0] == 'a',
        "accessibility"@[1] == 'c',
        "accessibility"@[12] == 'y',
        "adaptation"@.len() == 10,
        "adaptation"@[0] == 'a',
        "adaptation"@[1] == 'd',
        "adaptation"@[9] == 'n',
        "gricean"@.len() == 7,
        "gricean"@[0] == 'g',
        "gricean"@[1] == 'r',
        "gricean"@[6] == 'n',
        "intimate_space"@.len() == 14,
        "intimate_space"@[0] == 'i',
        "intimate_space"@[1] == 'n',
        "intimate_space"@[13] == 'e',
        "multilingual"@.len() == 12,
        "multilingual"@[0] == 'm',
        "multilingual"@[1] == 'u',
        "multilingual"@[11] == 'l',
        "panel_transition"@.len() == 16,
        "panel_transition"@[0] == 'p',
        "panel_transition"@[1] == 'a',
        "panel_transition"@[15] == 'n',
        "storywork"@.len() == 9,
        "storywork"@[0] == 's',
        "storywork"@[1] == 't',
        "storywork"@[8] == 'k',
        "translation"@.len() == 11,
        "translation"@[0] == 't',
        "translation"@[1] == 'r',
        "translation"@[10] == 'n',
        "visual_verbal"@.len() == 13,
        "visual_verbal"@[0] == 'v',
        "visual_verbal"@[1] == 'i',
        "visual_verbal"@[12] == 'l',
        "genre_reading"@.len() == 13,
        "genre_reading"@[0] == 'g',
        "genre_reading"@[1] == 'e',
        "genre_reading"@[12] == 'g',
        "scene_function"@.len() == 14,
        "scene_function"@[0] == 's',
        "scene_function"@[1] == 'c',
        "scene_function"@[13] == 'n',
        "scene_type"@.len() == 10,
        "scene_type"@[0] == 's',
        "scene_type"@[1] == 'c',
        "scene_type"@[9] == 'e',
        "conflict"@.len() == 8,
        "conflict"@[0] == 'c',
        "conflict"@[1] == 'o',
        "conflict"@[7] == 't',
        "arc"@.len() == 3,
        "arc"@[0] == 'a',
        "arc"@[1] == 'r',
        "arc"@[2] == 'c',
        "arc_pattern"@.len() == 11,
        "arc_pattern"@[0] == 'a',
        "arc_pattern"@[1] == 'r',
        "arc_pattern"@[10] == 'n',
        "outcome"@.len() == 7,
        "outcome"@[0] == 'o',
        "outcome"@[1] == 'u',
        "outcome"@[6] == 'e',
        "sense"@.len() == 5,
        "sense"@[0] == 's',
        "sense"@[1] == 'e',
        "sense"@[4] == 'e',
        "time_of_day"@.len() == 11,
        "time_of_day"@[0] == 't',
        "time_of_day"@[1] == 'i',
        "time_of_day"@[10] == 'y',
        "weather"@.len() == 7,
        "weather"@[0] == 'w',
        "weather"@[1] == 'e',
        "weather"@[6] == 'r',
        "world_delivery"@.len() == 14,
        "world_delivery"@[0] == 'w',
        "world_delivery"@[1] == 'o',
        "world_delivery"@[13] == 'y',
        "pov"@.len() == 3,
        "pov"@[0] == 'p',
        "pov"@[1] == 'o',
        "pov"@[2] == 'v',
        "focalization_type"@.len() == 17,
        "focalization_type"@[0] == 'f',
        "focalization_type"@[1] == 'o',
        "focalization_type"@[16] == 'e',
        "knowledge"@.len() == 9,
        "knowledge"@[0] == 'k',
        "knowledge"@[1] == 'n',
        "knowledge"@[8] == 'e',
        "reliability"@.len() == 11,
        "reliability"@[0] == 'r',
        "reliability"@[1] == 'e',
        "reliability"@[10] == 'y',
        "engagement"@.len() == 10,
        "engagement"@[0] == 'e',
        "engagement"@[1] == 'n',
        "engagement"@[9] == 't',
        "narrative_distance"@.len() == 18,
        "narrative_distance"@[0] == 'n',
        "narrative_distance"@[1] == 'a',
        "narrative_distance"@[17] == 'e',
        "voice_structure"@.len() == 15,
        "voice_structure"@[0] == 'v',
        "voice_structure"@[1] == 'o',
        "voice_structure"@[14] == 'e',
        "sentence_length"@.len() == 15,
        "sentence_length"@[0] == 's',
        "sentence_length"@[1] == 'e',
        "sentence_length"@[14] == 'h',
        "sentence_type"@.len() == 13,
        "sentence_type"@[0] == 's',
        "sentence_type"@[1] == 'e',
        "sentence_type"@[12] == 'e',
        "sentence_arch"@.len() == 13,
        "sentence_arch"@[0] == 's',
        "sentence_arch"@[1] == 'e',
        "sentence_arch"@[12] == 'h',
        "vocabulary"@.len() == 10,
        "vocabulary"@[0] == 'v',
        "vocabulary"@[1] == 'o',
        "vocabulary"@[9] == 'y',
        "profanity"@.len() == 9,
        "profanity"@[0] == 'p',
        "profanity"@[1] == 'r',
        "profanity"@[8] == 'y',
        "opening_type"@.len() == 12,
        "opening_type"@[0] == 'o',
        "opening_type"@[1] == 'p',
        "opening_type"@[11] == 'e',
        "question_delivery"@.len() == 17,
        "question_delivery"@[0] == 'q',
        "question_delivery"@[1] == 'u',
        "question_delivery"@[16] == 'y',
        "complexity"@.len() == 10,
        "complexity"@[0] == 'c',
        "complexity"@[1] == 'o',
        "complexity"@[9] == 'y',
        "displacement"@.len() == 12,
        "displacement"@[0] == 'd',
        "displacement"@[1] == 'i',
        "displacement"@[11] == 't',
        "non_response"@.len() == 12,
        "non_response"@[0] == 'n',
        "non_response"@[1] == 'o',
        "non_response"@[11] == 'e',
        "drive_model"@.len() == 11,
        "drive_model"@[0] == 'd',
        "drive_model"@[1] == 'r',
        "drive_model"@[10] == 'l',
        "stage"@.len() == 5,
        "stage"@[0] == 's',
        "stage"@[1] == 't',
        "stage"@[4] == 'e',
{
    reveal_strlit("character");
    reveal_strlit("setting");
    reveal_strlit("beat");
    reveal_strlit("thread");
    reveal_strlit("plot_type");
    reveal_strlit("collision_pattern");
    reveal_strlit("trope");
    reveal_strlit("diegetic_level");
    reveal_strlit("consciousness");
    reveal_strlit("speech_act");
    reveal_strlit("gaze");
    reveal_strlit("pact");
    reveal_strlit("actant");
    reveal_strlit("psychic_distance");
    reveal_strlit("tension");
    reveal_strlit("subtext");
    reveal_strlit("flag");
    reveal_strlit("motif");
    reveal_strlit("chapter");
    reveal_strlit("speaker");
    reveal_strlit("tone");
    reveal_strlit("ambience");
    reveal_strlit("music");
    reveal_strlit("sfx");
    reveal_strlit("delivery");
    reveal_strlit("paratext_zone");
    reveal_strlit("temporal_order");
    reveal_strlit("temporal_duration");
    reveal_strlit("temporal_frequency");
    reveal_strlit("reader_effect");
    reveal_strlit("intertextual");
    reveal_strlit("bloom_mode");
    reveal_strlit("metaphor");
    reveal_strlit("irony");
    reveal_strlit("comic_mode");
    reveal_strlit("comedy_theory");
    reveal_strlit("trauma_mode");
    reveal_strlit("recovery_stage");
    reveal_strlit("pentad_element");
    reveal_strlit("pentad_ratio");
    reveal_strlit("burke_form");
    reveal_strlit("emplotment");
    reveal_strlit("mimesis");
    reveal_strlit("spatial_practice");
    reveal_strlit("ethics");
    reveal_strlit("cultural_structure");
    reveal_strlit("survivrance");
    reveal_strlit("queer_time");
    reveal_strlit("disability_rep");
    reveal_strlit("affect");
    reveal_strlit("transitivity");
    reveal_strlit("jakobson");
    reveal_strlit("sign_type");
    reveal_strlit("ya_narrator");
    reveal_strlit("revision_pass");
    reveal_strlit("serial_arc");
    reveal_strlit("freudian");
    reveal_strlit("lacan_register");
    reveal_strlit("abject");
    reveal_strlit("postcolonial");
    reveal_strlit("ecocritical");
    reveal_strlit("image_schema");
    reveal_strlit("defamiliarize");
    reveal_strlit("semiotic_pos");
    reveal_strlit("experimental");
    reveal_strlit("posthuman");
    reveal_strlit("marxist_mode");
    reveal_strlit("feminist");
    reveal_strlit("signifying");
    reveal_strlit("cognitive");
    reveal_strlit("prosodic");
    reveal_strlit("propp");
    reveal_strlit("performativity");
    reveal_strlit("autofiction");
    reveal_strlit("narrative_ethics");
    reveal_strlit("transmedia");
    reveal_strlit("accessibility");
    reveal_strlit("adaptation");
    reveal_strlit("gricean");
    reveal_strlit("intimate_space");
    reveal_strlit("multilingual");
    reveal_strlit("panel_transition");
    reveal_strlit("storywork");
    reveal_strlit("translation");
    reveal_strlit("visual_verbal");
    reveal_strlit("genre_reading");
    reveal_strlit("scene_function");
    reveal_strlit("scene_type");
    reveal_strlit("conflict");
    reveal_strlit("arc");
    reveal_strlit("arc_pattern");
    reveal_strlit("outcome");
    reveal_strlit("sense");
    reveal_strlit("time_of_day");
    reveal_strlit("weather");
    reveal_strlit("world_delivery");
    reveal_strlit("pov");
    reveal_strlit("focalization_type");
    reveal_strlit("knowledge");
    reveal_strlit("reliability");
    reveal_strlit("engagement");
    reveal_strlit("narrative_distance");
    reveal_strlit("voice_structure");
    reveal_strlit("sentence_length");
    reveal_strlit("sentence_type");
    reveal_strlit("sentence_arch");
    reveal_strlit("vocabulary");
    reveal_strlit("profanity");
    reveal_strlit("opening_type");
    reveal_strlit("question_delivery");
    reveal_strlit("complexity");
    reveal_strlit("displacement");
    reveal_strlit("non_response");
    reveal_strlit("drive_model");
    reveal_strlit("stage");
}

#[verifier::rlimit(60)]
proof fn lemma_key_index_0(i: int)
    requires
        0 <= i < 15,
    ensures
        key_index(outcome_keys()[i]) == i,
{
    lemma_key_shapes();
    let t = outcome_keys();
    if i == 0 {
        assert(t[0] == "character"@);
    } else if i == 1 {
        assert(t[1] == "setting"@);
    } else if i == 2 {
        assert(t[2] == "beat"@);
    } else if i == 3 {
        assert(t[3] == "thread"@);
    } else if i == 4 {
        assert(t[4] == "plot_type"@);
    } else if i == 5 {
        assert(t[5] == "collision_pattern"@);
    } else if i == 6 {
        assert(t[6] == "trope"@);
    } else if i == 7 {
        assert(t[7] == "diegetic_level"@);
    } else if i == 8 {
        assert(t[8] == "consciousness"@);
    } else if i == 9 {
        assert(t[9] == "speech_act"@);
    } else if i == 10 {
        assert(t[10] == "gaze"@);
    } else if i == 11 {
        assert(t[11] == "pact"@);
    } else if i == 12 {
        assert(t[12] == "actant"@);
    } else if i == 13 {
        assert(t[13] == "psychic_distance"@);
    } else if i == 14 {
        assert(t[14] == "tension"@);
    }
}

#[verifier::rlimit(60)]
proof fn lemma_key_index_1(i: int)
    requires
        15 <= i < 30,
    ensures
        key_index(outcome_keys()[i]) == i,
{
    lemma_key_shapes();
    let t = outcome_keys();
    if i == 15 {
        assert(t[15] == "subtext"@);
    } else if i == 16 {
        assert(t[16] == "flag"@);
    } else if i == 17 {
        assert(t[17] == "motif"@);
    } else if i == 18 {
        assert(t[18] == "chapter"@);
    } else if i == 19 {
        assert(t[19] == "speaker"@);
    } else if i == 20 {
        assert(t[20] == "tone"@);
    } else if i == 21 {
        assert(t[21] == "ambience"@);
    } else if i == 22 {
        assert(t[22] == "music"@);
    } else if i == 23 {
        assert(t[23] == "sfx"@);
    } else if i == 24 {
        assert(t[24] == "delivery"@);
    } else if i == 25 {
        assert(t[25] == "paratext_zone"@);
    } else if i == 26 {
        assert(t[26] == "temporal_order"@);
    } else if i == 27 {
        assert(t[27] == "temporal_duration"@);
    } else if i == 28 {
        assert(t[28] == "temporal_frequency"@);
    } else if i == 29 {
        assert(t[29] == "reader_effect"@);
    }
}

#[verifier::rlimit(60)]
proof fn lemma_key_index_2(i: int)
    requires
        30 <= i < 45,
    ensures
        key_index(outcome_keys()[i]) == i,
{
    lemma_key_shapes();
    let t = outcome_keys();
    if i == 30 {
        assert(t[30] == "intertextual"@);
    } else if i == 31 {
        assert(t[31] == "bloom_mode"@);
    } else if i == 32 {
        assert(t[32] == "metaphor"@);
    } else if i == 33 {
        assert(t[33] == "irony"@);
    } else if i == 34 {
        assert(t[34] == "comic_mode"@);
    } else if i == 35 {
        assert(t[35] == "comedy_theory"@);
    } else if i == 36 {
        assert(t[36] == "trauma_mode"@);
    } else if i == 37 {
        assert(t[37] == "recovery_stage"@);
    } else if i == 38 {
        assert(t[38] == "pentad_element"@);
    } else if i == 39 {
        assert(t[39] == "pentad_ratio"@);
    } else if i == 40 {
        assert(t[40] == "burke_form"@);
    } else if i == 41 {
        assert(t[41] == "emplotment"@);
    } else if i == 42 {
        assert(t[42] == "mimesis"@);
    } else if i == 43 {
        assert(t[43] == "spatial_practice"@);
    } else if i == 44 {
        assert(t[44] == "ethics"@);
    }
}

#[verifier::rlimit(60)]
proof fn lemma_key_index_3(i: int)
    requires
        45 <= i < 60,
    ensures
        key_index(outcome_keys()[i]) == i,
{
    lemma_key_shapes();
    let t = outcome_keys();
    if i == 45 {
        assert(t[45] == "cultural_structure"@);
    } else if i == 46 {
        assert(t[46] == "survivrance"@);
    } else if i == 47 {
        assert(t[47] == "queer_time"@);
    } else if i == 48 {
        assert(t[48] == "disability_rep"@);
    } else if i == 49 {
        assert(t[49] == "affect"@);
    } else if i == 50 {
        assert(t[50] == "transitivity"@);
    } else if i == 51 {
        assert(t[51] == "jakobson"@);
    } else if i == 52 {
        assert(t[52] == "sign_type"@);
    } else if i == 53 {
        assert(t[53] == "ya_narrator"@);
    } else if i == 54 {
        assert(t[54] == "revision_pass"@);
    } else if i == 55 {
        assert(t[55] == "serial_arc"@);
    } else if i == 56 {
        assert(t[56] == "freudian"@);
    } else if i == 57 {
        assert(t[57] == "lacan_register"@);
    } else if i == 58 {
        assert(t[58] == "abject"@);
    } else if i == 59 {
        assert(t[59] == "postcolonial"@);
    }
}

#[verifier::rlimit(60)]
proof fn lemma_key_index_4(i: int)
    requires
        60 <= i < 75,
    ensures
        key_index(outcome_keys()[i]) == i,
{
    lemma_key_shapes();
    let t = outcome_keys();
    if i == 60 {
        assert(t[60] == "ecocritical"@);
    } else if i == 61 {
        assert(t[61] == "image_schema"@);
    } else if i == 62 {
        assert(t[62] == "defamiliarize"@);
    } else if i == 63 {
        assert(t[63] == "semiotic_pos"@);
    } else if i == 64 {
        assert(t[64] == "experimental"@);
    } else if i == 65 {
        assert(t[65] == "posthuman"@);
    } else if i == 66 {
        assert(t[66] == "marxist_mode"@);
    } else if i == 67 {
        assert(t[67] == "feminist"@);
    } else if i == 68 {
        assert(t[68] == "signifying"@);
    } else if i == 69 {
        assert(t[69] == "cognitive"@);
    } else if i == 70 {
        assert(t[70] == "prosodic"@);
    } else if i == 71 {
        assert(t[71] == "propp"@);
    } else if i == 72 {
        assert(t[72] == "performativity"@);
    } else if i == 73 {
        assert(t[73] == "autofiction"@);
    } else if i == 74 {
        assert(t[74] == "narrative_ethics"@);
    }
}

#[verifier::rlimit(60)]
proof fn lemma_key_index_5(i: int)
    requires
        75 <= i < 90,
    ensures
        key_index(outcome_keys()[i]) == i,
{
    lemma_key_shapes();
    let t = outcome_keys();
    if i == 75 {
        assert(t[75] == "transmedia"@);
    } else if i == 76 {
        assert(t[76] == "accessibility"@);
    } else if i == 77 {
        assert(t[77] == "adaptation"@);
    } else if i == 78 {
        assert(t[78] == "gricean"@);
    } else if i == 79 {
        assert(t[79] == "intimate_space"@);
    } else if i == 80 {
        assert(t[80] == "multilingual"@);
    } else if i == 81 {
        assert(t[81] == "panel_transition"@);
    } else if i == 82 {
        assert(t[82] == "storywork"@);
    } else if i == 83 {
        assert(t[83] == "translation"@);
    } else if i == 84 {
        assert(t[84] == "visual_verbal"@);
    } else if i == 85 {
        assert(t[85] == "genre_reading"@);
    } else if i == 86 {
        assert(t[86] == "scene_function"@);
    } else if i == 87 {
        assert(t[87] == "scene_type"@);
    } else if i == 88 {
        assert(t[88] == "conflict"@);
    } else if i == 89 {
        assert(t[89] == "arc"@);
    }
}

#[verifier::rlimit(60)]
proof fn lemma_key_index_6(i: int)
    requires
        90 <= i < 105,
    ensures
        key_index(outcome_keys()[i]) == i,
{
    lemma_key_shapes();
    let t = outcome_keys();
    if i == 90 {
        assert(t[90] == "arc_pattern"@);
    } else if i == 91 {
        assert(t[91] == "outcome"@);
    } else if i == 92 {
        assert(t[92] == "sense"@);
    } else if i == 93 {
        assert(t[93] == "time_of_day"@);
    } else if i == 94 {
        assert(t[94] == "weather"@);
    } else if i == 95 {
        assert(t[95] == "world_delivery"@);
    } else if i == 96 {
        assert(t[96] == "pov"@);
    } else if i == 97 {
        assert(t[97] == "focalization_type"@);
    } else if i == 98 {
        assert(t[98] == "knowledge"@);
    } else if i == 99 {
        assert(t[99] == "reliability"@);
    } else if i == 100 {
        assert(t[100] == "engagement"@);
    } else if i == 101 {
        assert(t[101] == "narrative_distance"@);
    } else if i == 102 {
        assert(t[102] == "voice_structure"@);
    } else if i == 103 {
        assert(t[103] == "sentence_length"@);
    } else if i == 104 {
        assert(t[104] == "sentence_type"@);
    }
}

#[verifier::rlimit(60)]
proof fn lemma_key_index_7(i: int)
    requires
        105 <= i < 115,
    ensures
        key_index(outcome_keys()[i]) == i,
{
    lemma_key_shapes();
    let t = outcome_keys();
    if i == 105 {
        assert(t[105] == "sentence_arch"@);
    } else if i == 106 {
        assert(t[106] == "vocabulary"@);
    } else if i == 107 {
        assert(t[107] == "profanity"@);
    } else if i == 108 {
        assert(t[108] == "opening_type"@);
    } else if i == 109 {
        assert(t[109] == "question_delivery"@);
    } else if i == 110 {
        assert(t[110] == "complexity"@);
    } else if i == 111 {
        assert(t[111] == "displacement"@);
    } else if i == 112 {
        assert(t[112] == "non_response"@);
    } else if i == 113 {
        assert(t[113] == "drive_model"@);
    } else if i == 114 {
        assert(t[114] == "stage"@);
    }
}

/// The entries of the outcome table read pairwise distinct keys.
proof fn lemma_key_index(i: int)
    requires
        0 <= i < 115,
    ensures
        key_index(outcome_keys()[i]) == i,
{
    if i < 15 {
        lemma_key_index_0(i);
    } else if i < 30 {
        lemma_key_index_1(i);
    } else if i < 45 {
        lemma_key_index_2(i);
    } else if i < 60 {
        lemma_key_index_3(i);
    } else if i < 75 {
        lemma_key_index_4(i);
    } else if i < 90 {
        lemma_key_index_5(i);
    } else if i < 105 {
        lemma_key_index_6(i);
    } else if i < 115 {
        lemma_key_index_7(i);
    }
}

proof fn lemma_lookup_single(k: Seq<char>, v: Seq<char>, key: Seq<char>)
    ensures
        lookup(seq![(k, v)], key) == if k == key {
            Some(v)
        } else {
            None::<Seq<char>>
        },
{
    let kv = seq![(k, v)];
    assert(kv.len() == 1 && kv.last() == (k, v));
    assert(kv.drop_last() =~= Seq::<PairView>::empty());
    assert(lookup(Seq::<PairView>::empty(), key) is None);
    assert(lookup(kv, key) == if kv.last().0 == key {
        Some(kv.last().1)
    } else {
        lookup(kv.drop_last(), key)
    });
}

#[verifier::rlimit(60)]
proof fn lemma_unread_absent_0(k: Seq<char>, v: Seq<char>, i: int)
    requires
        0 <= i < 15,
        k != outcome_keys()[i],
        k != "stage"@,
    ensures
        tag_outcome(seq![(k, v)], i) is Absent,
{
    let t = outcome_keys();
    if i == 0 {
        assert(t[0] == "character"@);
        lemma_lookup_single(k, v, "character"@);
    } else if i == 1 {
        assert(t[1] == "setting"@);
        lemma_lookup_single(k, v, "setting"@);
    } else if i == 2 {
        assert(t[2] == "beat"@);
        lemma_lookup_single(k, v, "beat"@);
    } else if i == 3 {
        assert(t[3] == "thread"@);
        lemma_lookup_single(k, v, "thread"@);
    } else if i == 4 {
        assert(t[4] == "plot_type"@);
        lemma_lookup_single(k, v, "plot_type"@);
    } else if i == 5 {
        assert(t[5] == "collision_pattern"@);
        lemma_lookup_single(k, v, "collision_pattern"@);
    } else if i == 6 {
        assert(t[6] == "trope"@);
        lemma_lookup_single(k, v, "trope"@);
    } else if i == 7 {
        assert(t[7] == "diegetic_level"@);
        lemma_lookup_single(k, v, "diegetic_level"@);
    } else if i == 8 {
        assert(t[8] == "consciousness"@);
        lemma_lookup_single(k, v, "consciousness"@);
    } else if i == 9 {
        assert(t[9] == "speech_act"@);
        lemma_lookup_single(k, v, "speech_act"@);
    } else if i == 10 {
        assert(t[10] == "gaze"@);
        lemma_lookup_single(k, v, "gaze"@);
    } else if i == 11 {
        assert(t[11] == "pact"@);
        lemma_lookup_single(k, v, "pact"@);
    } else if i == 12 {
        assert(t[12] == "actant"@);
        lemma_lookup_single(k, v, "actant"@);
    } else if i == 13 {
        assert(t[13] == "psychic_distance"@);
        lemma_lookup_single(k, v, "psychic_distance"@);
    } else if i == 14 {
        assert(t[14] == "tension"@);
        lemma_lookup_single(k, v, "tension"@);
    }
}

#[verifier::rlimit(60)]
proof fn lemma_unread_absent_1(k: Seq<char>, v: Seq<char>, i: int)
    requires
        15 <= i < 30,
        k != outcome_keys()[i],
        k != "stage"@,
    ensures
        tag_outcome(seq![(k, v)], i) is Absent,
{
    let t = outcome_keys();
    if i == 15 {
        assert(t[15] == "subtext"@);
        lemma_lookup_single(k, v, "subtext"@);
    } else if i == 16 {
        assert(t[16] == "flag"@);
        lemma_lookup_single(k, v, "flag"@);
    } else if i == 17 {
        assert(t[17] == "motif"@);
        lemma_lookup_single(k, v, "motif"@);
        lemma_lookup_single(k, v, "stage"@);
    } else if i == 18 {
        assert(t[18] == "chapter"@);
        lemma_lookup_single(k, v, "chapter"@);
    } else if i == 19 {
        assert(t[19] == "speaker"@);
        lemma_lookup_single(k, v, "speaker"@);
    } else if i == 20 {
        assert(t[20] == "tone"@);
        lemma_lookup_single(k, v, "tone"@);
    } else if i == 21 {
        assert(t[21] == "ambience"@);
        lemma_lookup_single(k, v, "ambience"@);
    } else if i == 22 {
        assert(t[22] == "music"@);
        lemma_lookup_single(k, v, "music"@);
    } else if i == 23 {
        assert(t[23] == "sfx"@);
        lemma_lookup_single(k, v, "sfx"@);
    } else if i == 24 {
        assert(t[24] == "delivery"@);
        lemma_lookup_single(k, v, "delivery"@);
    } else if i == 25 {
        assert(t[25] == "paratext_zone"@);
        lemma_lookup_single(k, v, "paratext_zone"@);
    } else if i == 26 {
        assert(t[26] == "temporal_order"@);
        lemma_lookup_single(k, v, "temporal_order"@);
    } else if i == 27 {
        assert(t[27] == "temporal_duration"@);
        lemma_lookup_single(k, v, "temporal_duration"@);
    } else if i == 28 {
        assert(t[28] == "temporal_frequency"@);
        lemma_lookup_single(k, v, "temporal_frequency"@);
    } else if i == 29 {
        assert(t[29] == "reader_effect"@);
        lemma_lookup_single(k, v, "reader_effect"@);
    }
}

#[verifier::rlimit(60)]
proof fn lemma_unread_absent_2(k: Seq<char>, v: Seq<char>, i: int)
    requires
        30 <= i < 45,
        k != outcome_keys()[i],
        k != "stage"@,
    ensures
        tag_outcome(seq![(k, v)], i) is Absent,
{
    let t = outcome_keys();
    if i == 30 {
        assert(t[30] == "intertextual"@);
        lemma_lookup_single(k, v, "intertextual"@);
    } else if i == 31 {
        assert(t[31] == "bloom_mode"@);
        lemma_lookup_single(k, v, "bloom_mode"@);
    } else if i == 32 {
        assert(t[32] == "metaphor"@);
        lemma_lookup_single(k, v, "metaphor"@);
    } else if i == 33 {
        assert(t[33] == "irony"@);
        lemma_lookup_single(k, v, "irony"@);
    } else if i == 34 {
        assert(t[34] == "comic_mode"@);
        lemma_lookup_single(k, v, "comic_mode"@);
    } else if i == 35 {
        assert(t[35] == "comedy_theory"@);
        lemma_lookup_single(k, v, "comedy_theory"@);
    } else if i == 36 {
        assert(t[36] == "trauma_mode"@);
        lemma_lookup_single(k, v, "trauma_mode"@);
    } else if i == 37 {
        assert(t[37] == "recovery_stage"@);
        lemma_lookup_single(k, v, "recovery_stage"@);
    } else if i == 38 {
        assert(t[38] == "pentad_element"@);
        lemma_lookup_single(k, v, "pentad_element"@);
    } else if i == 39 {
        assert(t[39] == "pentad_ratio"@);
        lemma_lookup_single(k, v, "pentad_ratio"@);
    } else if i == 40 {
        assert(t[40] == "burke_form"@);
        lemma_lookup_single(k, v, "burke_form"@);
    } else if i == 41 {
        assert(t[41] == "emplotment"@);
        lemma_lookup_single(k, v, "emplotment"@);
    } else if i == 42 {
        assert(t[42] == "mimesis"@);
        lemma_lookup_single(k, v, "mimesis"@);
    } else if i == 43 {
        assert(t[43] == "spatial_practice"@);
        lemma_lookup_single(k, v, "spatial_practice"@);
    } else if i == 44 {
        assert(t[44] == "ethics"@);
        lemma_lookup_single(k, v, "ethics"@);
    }
}

#[verifier::rlimit(60)]
proof fn lemma_unread_absent_3(k: Seq<char>, v: Seq<char>, i: int)
    requires
        45 <= i < 60,
        k != outcome_keys()[i],
        k != "stage"@,
    ensures
        tag_outcome(seq![(k, v)], i) is Absent,
{
    let t = outcome_keys();
    if i == 45 {
        assert(t[45] == "cultural_structure"@);
        lemma_lookup_single(k, v, "cultural_structure"@);
    } else if i == 46 {
        assert(t[46] == "survivrance"@);
        lemma_lookup_single(k, v, "survivrance"@);
    } else if i == 47 {
        assert(t[47] == "queer_time"@);
        lemma_lookup_single(k, v, "queer_time"@);
    } else if i == 48 {
        assert(t[48] == "disability_rep"@);
        lemma_lookup_single(k, v, "disability_rep"@);
    } else if i == 49 {
        assert(t[49] == "affect"@);
        lemma_lookup_single(k, v, "affect"@);
    } else if i == 50 {
        assert(t[50] == "transitivity"@);
        lemma_lookup_single(k, v, "transitivity"@);
    } else if i == 51 {
        assert(t[51] == "jakobson"@);
        lemma_lookup_single(k, v, "jakobson"@);
    } else if i == 52 {
        assert(t[52] == "sign_type"@);
        lemma_lookup_single(k, v, "sign_type"@);
    } else if i == 53 {
        assert(t[53] == "ya_narrator"@);
        lemma_lookup_single(k, v, "ya_narrator"@);
    } else if i == 54 {
        assert(t[54] == "revision_pass"@);
        lemma_lookup_single(k, v, "revision_pass"@);
    } else if i == 55 {
        assert(t[55] == "serial_arc"@);
        lemma_lookup_single(k, v, "serial_arc"@);
    } else if i == 56 {
        assert(t[56] == "freudian"@);
        lemma_lookup_single(k, v, "freudian"@);
    } else if i == 57 {
        assert(t[57] == "lacan_register"@);
        lemma_lookup_single(k, v, "lacan_register"@);
    } else if i == 58 {
        assert(t[58] == "abject"@);
        lemma_lookup_single(k, v, "abject"@);
    } else if i == 59 {
        assert(t[59] == "postcolonial"@);
        lemma_lookup_single(k, v, "postcolonial"@);
    }
}

#[verifier::rlimit(60)]
proof fn lemma_unread_absent_4(k: Seq<char>, v: Seq<char>, i: int)
    requires
        60 <= i < 75,
        k != outcome_keys()[i],
        k != "stage"@,
    ensures
        tag_outcome(seq![(k, v)], i) is Absent,
{
    let t = outcome_keys();
    if i == 60 {
        assert(t[60] == "ecocritical"@);
        lemma_lookup_single(k, v, "ecocritical"@);
    } else if i == 61 {
        assert(t[61] == "image_schema"@);
        lemma_lookup_single(k, v, "image_schema"@);
    } else if i == 62 {
        assert(t[62] == "defamiliarize"@);
        lemma_lookup_single(k, v, "defamiliarize"@);
    } else if i == 63 {
        assert(t[63] == "semiotic_pos"@);
        lemma_lookup_single(k, v, "semiotic_pos"@);
    } else if i == 64 {
        assert(t[64] == "experimental"@);
        lemma_lookup_single(k, v, "experimental"@);
    } else if i == 65 {
        assert(t[65] == "posthuman"@);
        lemma_lookup_single(k, v, "posthuman"@);
    } else if i == 66 {
        assert(t[66] == "marxist_mode"@);
        lemma_lookup_single(k, v, "marxist_mode"@);
    } else if i == 67 {
        assert(t[67] == "feminist"@);
        lemma_lookup_single(k, v, "feminist"@);
    } else if i == 68 {
        assert(t[68] == "signifying"@);
        lemma_lookup_single(k, v, "signifying"@);
    } else if i == 69 {
        assert(t[69] == "cognitive"@);
        lemma_lookup_single(k, v, "cognitive"@);
    } else if i == 70 {
        assert(t[70] == "prosodic"@);
        lemma_lookup_single(k, v, "prosodic"@);
    } else if i == 71 {
        assert(t[71] == "propp"@);
        lemma_lookup_single(k, v, "propp"@);
    } else if i == 72 {
        assert(t[72] == "performativity"@);
        lemma_lookup_single(k, v, "performativity"@);
    } else if i == 73 {
        assert(t[73] == "autofiction"@);
        lemma_lookup_single(k, v, "autofiction"@);
    } else if i == 74 {
        assert(t[74] == "narrative_ethics"@);
        lemma_lookup_single(k, v, "narrative_ethics"@);
    }
}

#[verifier::rlimit(60)]
proof fn lemma_unread_absent_5(k: Seq<char>, v: Seq<char>, i: int)
    requires
        75 <= i < 90,
        k != outcome_keys()[i],
        k != "stage"@,
    ensures
        tag_outcome(seq![(k, v)], i) is Absent,
{
    let t = outcome_keys();
    if i == 75 {
        assert(t[75] == "transmedia"@);
        lemma_lookup_single(k, v, "transmedia"@);
    } else if i == 76 {
        assert(t[76] == "accessibility"@);
        lemma_lookup_single(k, v, "accessibility"@);
    } else if i == 77 {
        assert(t[77] == "adaptation"@);
        lemma_lookup_single(k, v, "adaptation"@);
    } else if i == 78 {
        assert(t[78] == "gricean"@);
        lemma_lookup_single(k, v, "gricean"@);
    } else if i == 79 {
        assert(t[79] == "intimate_space"@);
        lemma_lookup_single(k, v, "intimate_space"@);
    } else if i == 80 {
        assert(t[80] == "multilingual"@);
        lemma_lookup_single(k, v, "multilingual"@);
    } else if i == 81 {
        assert(t[81] == "panel_transition"@);
        lemma_lookup_single(k, v, "panel_transition"@);
    } else if i == 82 {
        assert(t[82] == "storywork"@);
        lemma_lookup_single(k, v, "storywork"@);
    } else if i == 83 {
        assert(t[83] == "translation"@);
        lemma_lookup_single(k, v, "translation"@);
    } else if i == 84 {
        assert(t[84] == "visual_verbal"@);
        lemma_lookup_single(k, v, "visual_verbal"@);
    } else if i == 85 {
        assert(t[85] == "genre_reading"@);
        lemma_lookup_single(k, v, "genre_reading"@);
    } else if i == 86 {
        assert(t[86] == "scene_function"@);
        lemma_lookup_single(k, v, "scene_function"@);
    } else if i == 87 {
        assert(t[87] == "scene_type"@);
        lemma_lookup_single(k, v, "scene_type"@);
    } else if i == 88 {
        assert(t[88] == "conflict"@);
        lemma_lookup_single(k, v, "conflict"@);
    } else if i == 89 {
        assert(t[89] == "arc"@);
        lemma_lookup_single(k, v, "arc"@);
    }
}

#[verifier::rlimit(60)]
proof fn lemma_unread_absent_6(k: Seq<char>, v: Seq<char>, i: int)
    requires
        90 <= i < 105,
        k != outcome_keys()[i],
        k != "stage"@,
    ensures
        tag_outcome(seq![(k, v)], i) is Absent,
{
    let t = outcome_keys();
    if i == 90 {
        assert(t[90] == "arc_pattern"@);
        lemma_lookup_single(k, v, "arc_pattern"@);
    } else if i == 91 {
        assert(t[91] == "outcome"@);
        lemma_lookup_single(k, v, "outcome"@);
    } else if i == 92 {
        assert(t[92] == "sense"@);
        lemma_lookup_single(k, v, "sense"@);
    } else if i == 93 {
        assert(t[93] == "time_of_day"@);
        lemma_lookup_single(k, v, "time_of_day"@);
    } else if i == 94 {
        assert(t[94] == "weather"@);
        lemma_lookup_single(k, v, "weather"@);
    } else if i == 95 {
        assert(t[95] == "world_delivery"@);
        lemma_lookup_single(k, v, "world_delivery"@);
    } else if i == 96 {
        assert(t[96] == "pov"@);
        lemma_lookup_single(k, v, "pov"@);
    } else if i == 97 {
        assert(t[97] == "focalization_type"@);
        lemma_lookup_single(k, v, "focalization_type"@);
    } else if i == 98 {
        assert(t[98] == "knowledge"@);
        lemma_lookup_single(k, v, "knowledge"@);
    } else if i == 99 {
        assert(t[99] == "reliability"@);
        lemma_lookup_single(k, v, "reliability"@);
    } else if i == 100 {
        assert(t[100] == "engagement"@);
        lemma_lookup_single(k, v, "engagement"@);
    } else if i == 101 {
        assert(t[101] == "narrative_distance"@);
        lemma_lookup_single(k, v, "narrative_distance"@);
    } else if i == 102 {
        assert(t[102] == "voice_structure"@);
        lemma_lookup_single(k, v, "voice_structure"@);
    } else if i == 103 {
        assert(t[103] == "sentence_length"@);
        lemma_lookup_single(k, v, "sentence_length"@);
    } else if i == 104 {
        assert(t[104] == "sentence_type"@);
        lemma_lookup_single(k, v, "sentence_type"@);
    }
}

#[verifier::rlimit(60)]
proof fn lemma_unread_absent_7(k: Seq<char>, v: Seq<char>, i: int)
    requires
        105 <= i < 115,
        k != outcome_keys()[i],
        k != "stage"@,
    ensures
        tag_outcome(seq![(k, v)], i) is Absent,
{
    let t = outcome_keys();
    if i == 105 {
        assert(t[105] == "sentence_arch"@);
        lemma_lookup_single(k, v, "sentence_arch"@);
    } else if i == 106 {
        assert(t[106] == "vocabulary"@);
        lemma_lookup_single(k, v, "vocabulary"@);
    } else if i == 107 {
        assert(t[107] == "profanity"@);
        lemma_lookup_single(k, v, "profanity"@);
    } else if i == 108 {
        assert(t[108] == "opening_type"@);
        lemma_lookup_single(k, v, "opening_type"@);
    } else if i == 109 {
        assert(t[109] == "question_delivery"@);
        lemma_lookup_single(k, v, "question_delivery"@);
    } else if i == 110 {
        assert(t[110] == "complexity"@);
        lemma_lookup_single(k, v, "complexity"@);
    } else if i == 111 {
        assert(t[111] == "displacement"@);
        lemma_lookup_single(k, v, "displacement"@);
    } else if i == 112 {
        assert(t[112] == "non_response"@);
        lemma_lookup_single(k, v, "non_response"@);
    } else if i == 113 {
        assert(t[113] == "drive_model"@);
        lemma_lookup_single(k, v, "drive_model"@);
    } else if i == 114 {
        assert(t[114] == "stage"@);
        lemma_lookup_single(k, v, "stage"@);
    }
}

/// An entry reads nothing from a lone pair whose key it does not read.
proof fn lemma_unread_absent(k: Seq<char>, v: Seq<char>, i: int)
    requires
        0 <= i < 115,
        k != outcome_keys()[i],
        k != "stage"@,
    ensures
        tag_outcome(seq![(k, v)], i) is Absent,
{
    if i < 15 {
        lemma_unread_absent_0(k, v, i);
    } else if i < 30 {
        lemma_unread_absent_1(k, v, i);
    } else if i < 45 {
        lemma_unread_absent_2(k, v, i);
    } else if i < 60 {
        lemma_unread_absent_3(k, v, i);
    } else if i < 75 {
        lemma_unread_absent_4(k, v, i);
    } else if i < 90 {
        lemma_unread_absent_5(k, v, i);
    } else if i < 105 {
        lemma_unread_absent_6(k, v, i);
    } else if i < 115 {
        lemma_unread_absent_7(k, v, i);
    }
}

proof fn lemma_listed_at(os: Seq<TagOutcome>, a: AnnotationView)
    requires
        outcome_annotations(os).contains(a),
    ensures
        exists|j: int| 0 <= j < os.len() && os[j] == TagOutcome::Parsed(a),
    decreases os.len(),
{
    if os.len() > 0 {
        let tail = match os.last() {
            TagOutcome::Parsed(b) => seq![b],
            _ => Seq::<AnnotationView>::empty(),
        };
        assert(outcome_annotations(os) == outcome_annotations(os.drop_last()) + tail);
        let k = choose|k: int| 0 <= k < outcome_annotations(os).len() && outcome_annotations(os)[k] == a;
        if k < outcome_annotations(os.drop_last()).len() {
            assert(outcome_annotations(os.drop_last())[k] == a);
            lemma_listed_at(os.drop_last(), a);
            let j = choose|j: int| 0 <= j < os.drop_last().len() && os.drop_last()[j] == TagOutcome::Parsed(a);
            assert(os[j] == TagOutcome::Parsed(a));
        } else {
            assert(os[os.len() - 1] == TagOutcome::Parsed(a));
        }
    }
}

proof fn lemma_lone_outcome(os: Seq<TagOutcome>, j: int, a: AnnotationView)
    requires
        0 <= j < os.len(),
        os[j] == TagOutcome::Parsed(a),
        forall|i: int| 0 <= i < os.len() && i != j ==> (#[trigger] os[i]) is Absent,
    ensures
        outcome_annotations(os) == seq![a],
        outcome_warnings(os) == Seq::<Seq<char>>::empty(),
    decreases os.len(),
{
    let d = os.drop_last();
    if j == os.len() - 1 {
        assert forall|i: int| 0 <= i < d.len() implies (#[trigger] d[i]) is Absent by {
            assert(d[i] == os[i]);
        }
        lemma_all_absent(d);
        assert(outcome_annotations(os) =~= outcome_annotations(d) + seq![a]);
    } else {
        assert(d[j] == TagOutcome::Parsed(a));
        assert forall|i: int| 0 <= i < d.len() && i != j implies (#[trigger] d[i]) is Absent by {
            assert(d[i] == os[i]);
        }
        lemma_lone_outcome(d, j, a);
        assert(os.last() is Absent);
        assert(outcome_annotations(os) =~= outcome_annotations(d));
    }
    assert(outcome_warnings(os) =~= outcome_warnings(d));
}

proof fn lemma_all_absent(os: Seq<TagOutcome>)
    requires
        forall|i: int| 0 <= i < os.len() ==> (#[trigger] os[i]) is Absent,
    ensures
        outcome_annotations(os) == Seq::<AnnotationView>::empty(),
        outcome_warnings(os) == Seq::<Seq<char>>::empty(),
    decreases os.len(),
{
    if os.len() > 0 {
        let d = os.drop_last();
        assert forall|i: int| 0 <= i < d.len() implies (#[trigger] d[i]) is Absent by {
            assert(d[i] == os[i]);
        }
        lemma_all_absent(d);
        assert(os.last() is Absent);
        assert(outcome_annotations(os) =~= outcome_annotations(d));
        assert(outcome_warnings(os) =~= outcome_warnings(d));
    }
}

proof fn lemma_pair_key_not_stage(a: AnnotationView)
    ensures
        pair_of(a) matches Some(p) ==> p.0 != "stage"@,
{
    lemma_key_shapes();
}

/// Lossless read-back of a lone tag: reading, on its own, the pair an
/// annotation flattens to gives exactly that annotation and no warning.
pub proof fn lemma_lone_pair_reads_exactly(a: AnnotationView)
    requires
        read_back(a),
        pair_of(a) is Some,
    ensures
        outcome_annotations(tag_outcomes(seq![pair_of(a)->0])) == seq![a],
        outcome_warnings(tag_outcomes(seq![pair_of(a)->0])) == Seq::<Seq<char>>::empty(),
{
    let p = pair_of(a)->0;
    let kv = seq![p];
    let os = tag_outcomes(kv);
    lemma_lookup_single(p.0, p.1, p.0);
    assert(kv == seq![(p.0, p.1)]);
    lemma_pair_read_back(kv, a);
    lemma_listed_at(os, a);
    let j = choose|j: int| 0 <= j < os.len() && os[j] == TagOutcome::Parsed(a);
    assert(os[j] == tag_outcome(kv, j));
    lemma_pair_key_not_stage(a);
    if p.0 != outcome_keys()[j] {
        lemma_unread_absent(p.0, p.1, j);
    }
    assert forall|i: int| 0 <= i < os.len() && i != j implies (#[trigger] os[i]) is Absent by {
        lemma_key_index(i);
        lemma_key_index(j);
        assert(os[i] == tag_outcome(kv, i));
        lemma_unread_absent(p.0, p.1, i);
    }
    lemma_lone_outcome(os, j, a);
}

/// The shape (length and outer characters) of some key or alias of the key
/// table.
pub open spec fn table_shape(x: Seq<char>) -> bool {
    (x.len() == 6 && x[0] == 'a' && x[1] == 'c' && x[4] == 'n' && x[5] == 't')
    || (x.len() == 9 && x[0] == 'a' && x[1] == 'l' && x[7] == 'n' && x[8] == 't')
    || (x.len() == 9 && x[0] == 'a' && x[1] == 'r' && x[7] == 'p' && x[8] == 'e')
    || (x.len() == 4 && x[0] == 'b' && x[1] == 'e' && x[2] == 'a' && x[3] == 't')
    || (x.len() == 7 && x[0] == 'c' && x[1] == 'h' && x[5] == 'e' && x[6] == 'r')
    || (x.len() == 9 && x[0] == 'c' && x[1] == 'h' && x[7] == 'e' && x[8] == 'r')
    || (x.len() == 10 && x[0] == 'c' && x[1] == 'h' && x[8] == 'r' && x[9] == 's')
    || (x.len() == 17 && x[0] == 'c' && x[1] == 'o' && x[15] == 'r' && x[16] == 'n')
    || (x.len() == 13 && x[0] == 'c' && x[1] == 'o' && x[11] == 's' && x[12] == 's')
    || (x.len() == 14 && x[0] == 'd' && x[1] == 'i' && x[12] == 'e' && x[13] == 'l')
    || (x.len() == 11 && x[0] == 'd' && x[1] == 'r' && x[9] == 'e' && x[10] == 'l')
    || (x.len() == 4 && x[0] == 'f' && x[1] == 'l' && x[2] == 'a' && x[3] == 'g')
    || (x.len() == 4 && x[0] == 'g' && x[1] == 'a' && x[2] == 'z' && x[3] == 'e')
    || (x.len() == 5 && x[0] == 'g' && x[1] == 'e' && x[3] == 'r' && x[4] == 'e')
    || (x.len() == 8 && x[0] == 'l' && x[1] == 'o' && x[6] == 'o' && x[7] == 'n')
    || (x.len() == 5 && x[0] == 'm' && x[1] == 'o' && x[3] == 'i' && x[4] == 'f')
    || (x.len() == 11 && x[0] == 'm' && x[1] == 'o' && x[9] == 'g' && x[10] == 'e')
    || (x.len() == 4 && x[0] == 'p' && x[1] == 'a' && x[2] == 'c' && x[3] == 't')
    || (x.len() == 13 && x[0] == 'p' && x[1] == 'a' && x[11] == 'n' && x[12] == 'e')
    || (x.len() == 9 && x[0] == 'p' && x[1] == 'l' && x[7] == 'p' && x[8] == 'e')
    || (x.len() == 7 && x[0] == 'p' && x[1] == 'r' && x[5] == 's' && x[6] == 'e')
    || (x.len() == 16 && x[0] == 'p' && x[1] == 's' && x[14] == 'c' && x[15] == 'e')
    || (x.len() == 12 && x[0] == 'r' && x[1] == 'e' && x[10] == 'i' && x[11] == 'p')
    || (x.len() == 4 && x[0] == 'r' && x[1] == 'o' && x[2] == 'l' && x[3] == 'e')
    || (x.len() == 5 && x[0] == 's' && x[1] == 'c' && x[3] == 'n' && x[4] == 'e')
    || (x.len() == 8 && x[0] == 's' && x[1] == 'c' && x[6] == 'i' && x[7] == 'd')
    || (x.len() == 7 && x[0] == 's' && x[1] == 'e' && x[5] == 'n' && x[6] == 'g')
    || (x.len() == 13 && x[0] == 's' && x[1] == 'o' && x[11] == 'l' && x[12] == 'e')
    || (x.len() == 6 && x[0] == 's' && x[1] == 'o' && x[4] == 'c' && x[5] == 'e')
    || (x.len() == 11 && x[0] == 's' && x[1] == 'o' && x[9] == 'x' && x[10] == 't')
    || (x.len() == 10 && x[0] == 's' && x[1] == 'p' && x[8] == 'c' && x[9] == 't')
    || (x.len() == 5 && x[0] == 's' && x[1] == 't' && x[3] == 'g' && x[4] == 'e')
    || (x.len() == 7 && x[0] == 's' && x[1] == 'u' && x[5] == 'o' && x[6] == 't')
    || (x.len() == 7 && x[0] == 's' && x[1] == 'u' && x[5] == 'x' && x[6] == 't')
    || (x.len() == 7 && x[0] == 't' && x[1] == 'e' && x[5] == 'o' && x[6] == 'n')
    || (x.len() == 6 && x[0] == 't' && x[1] == 'h' && x[4] == 'a' && x[5] == 'd')
    || (x.len() == 5 && x[0] == 't' && x[1] == 'r' && x[3] == 'p' && x[4] == 'e')
    || (x.len() == 5 && x[0] == 'w' && x[1] == 'o' && x[3] == 'n' && x[4] == 'd')
}

proof fn lemma_table_shapes()
    ensures
        forall|i: int| 0 <= i < tag_key_table().len() ==> table_shape(#[trigger] tag_key_table()[i].canonical_key) && (tag_key_table()[i].alias_key matches Some(al) ==> table_shape(al)),
{
    reveal_strlit("actant");
    reveal_strlit("alignment");
    reveal_strlit("archetype");
    reveal_strlit("beat");
    reveal_strlit("chapter");
    reveal_strlit("character");
    reveal_strlit("characters");
    reveal_strlit("collision_pattern");
    reveal_strlit("consciousness");
    reveal_strlit("diegetic_level");
    reveal_strlit("drive_model");
    reveal_strlit("flag");
    reveal_strlit("gaze");
    reveal_strlit("genre");
    reveal_strlit("location");
    reveal_strlit("motif");
    reveal_strlit("motif_stage");
    reveal_strlit("pact");
    reveal_strlit("paratext_zone");
    reveal_strlit("plot_type");
    reveal_strlit("promise");
    reveal_strlit("psychic_distance");
    reveal_strlit("relationship");
    reveal_strlit("role");
    reveal_strlit("scene");
    reveal_strlit("scene_id");
    reveal_strlit("setting");
    reveal_strlit("social_circle");
    reveal_strlit("source");
    reveal_strlit("source_text");
    reveal_strlit("speech_act");
    reveal_strlit("stage");
    reveal_strlit("subplot");
    reveal_strlit("subtext");
    reveal_strlit("tension");
    reveal_strlit("thread");
    reveal_strlit("trope");
    reveal_strlit("wound");
    let t = tag_key_table();
    assert forall|i: int| 0 <= i < t.len() implies table_shape(#[trigger] t[i].canonical_key) && (t[i].alias_key matches Some(al) ==> table_shape(al)) by {
        if i == 0 {
            assert(t[0] == tag_key_table()[0]);
        } else if i == 1 {
            assert(t[1] == tag_key_table()[1]);
        } else if i == 2 {
            assert(t[2] == tag_key_table()[2]);
        } else if i == 3 {
            assert(t[3] == tag_key_table()[3]);
        } else if i == 4 {
            assert(t[4] == tag_key_table()[4]);
        } else if i == 5 {
            assert(t[5] == tag_key_table()[5]);
        } else if i == 6 {
            assert(t[6] == tag_key_table()[6]);
        } else if i == 7 {
            assert(t[7] == tag_key_table()[7]);
        } else if i == 8 {
            assert(t[8] == tag_key_table()[8]);
        } else if i == 9 {
            assert(t[9] == tag_key_table()[9]);
        } else if i == 10 {
            assert(t[10] == tag_key_table()[10]);
        } else if i == 11 {
            assert(t[11] == tag_key_table()[11]);
        } else if i == 12 {
            assert(t[12] == tag_key_table()[12]);
        } else if i == 13 {
            assert(t[13] == tag_key_table()[13]);
        } else if i == 14 {
            assert(t[14] == tag_key_table()[14]);
        } else if i == 15 {
            assert(t[15] == tag_key_table()[15]);
        } else if i == 16 {
            assert(t[16] == tag_key_table()[16]);
        } else if i == 17 {
            assert(t[17] == tag_key_table()[17]);
        } else if i == 18 {
            assert(t[18] == tag_key_table()[18]);
        } else if i == 19 {
            assert(t[19] == tag_key_table()[19]);
        } else if i == 20 {
            assert(t[20] == tag_key_table()[20]);
        } else if i == 21 {
            assert(t[21] == tag_key_table()[21]);
        } else if i == 22 {
            assert(t[22] == tag_key_table()[22]);
        } else if i == 23 {
            assert(t[23] == tag_key_table()[23]);
        } else if i == 24 {
            assert(t[24] == tag_key_table()[24]);
        } else if i == 25 {
            assert(t[25] == tag_key_table()[25]);
        } else if i == 26 {
            assert(t[26] == tag_key_table()[26]);
        } else if i == 27 {
            assert(t[27] == tag_key_table()[27]);
        } else if i == 28 {
            assert(t[28] == tag_key_table()[28]);
        } else if i == 29 {
            assert(t[29] == tag_key_table()[29]);
        } else if i == 30 {
            assert(t[30] == tag_key_table()[30]);
        } else if i == 31 {
            assert(t[31] == tag_key_table()[31]);
        } else if i == 32 {
            assert(t[32] == tag_key_table()[32]);
        } else if i == 33 {
            assert(t[33] == tag_key_table()[33]);
        } else if i == 34 {
            assert(t[34] == tag_key_table()[34]);
        } else if i == 35 {
            assert(t[35] == tag_key_table()[35]);
        } else if i == 36 {
            assert(t[36] == tag_key_table()[36]);
        } else if i == 37 {
            assert(t[37] == tag_key_table()[37]);
        }
    }
}

proof fn lemma_key_fixed_speaker()
    ensures
        canonical_tag_key("speaker"@) == "speaker"@,
        "speaker"@.len() > 0,
        forall|i: int| 0 <= i < "speaker"@.len() ==> is_key_char(#[trigger] "speaker"@[i]),
{
    reveal_strlit("speaker");
    let k = "speaker"@;
    assert("speaker"@.len() == 7);
    assert("speaker"@[0] == 's');
    assert("speaker"@[1] == 'p');
    assert("speaker"@[5] == 'e');
    assert("speaker"@[6] == 'r');
    assert forall|i: int| 0 <= i < k.len() implies is_key_char(#[trigger] k[i]) by {
        if i == 0 {} else if i == 1 {} else if i == 2 {} else if i == 3 {} else if i == 4 {} else if i == 5 {} else if i == 6 {}
    }
    lemma_key_chars_fixed(k);
    lemma_table_shapes();
    assert(!table_shape(k));
    let t = tag_key_table();
    assert forall|i: int| 0 <= i < t.len() implies (#[trigger] t[i]).canonical_key != k && t[i].alias_key != Some(k) by {
        assert(table_shape(t[i].canonical_key));
    }
    lemma_mapped_unlisted(k, t);
}

proof fn lemma_key_fixed_tone()
    ensures
        canonical_tag_key("tone"@) == "tone"@,
        "tone"@.len() > 0,
        forall|i: int| 0 <= i < "tone"@.len() ==> is_key_char(#[trigger] "tone"@[i]),
{
    reveal_strlit("tone");
    let k = "tone"@;
    assert("tone"@.len() == 4);
    assert("tone"@[0] == 't');
    assert("tone"@[1] == 'o');
    assert("tone"@[2] == 'n');
    assert("tone"@[3] == 'e');
    assert forall|i: int| 0 <= i < k.len() implies is_key_char(#[trigger] k[i]) by {
        if i == 0 {} else if i == 1 {} else if i == 2 {} else if i == 3 {}
    }
    lemma_key_chars_fixed(k);
    lemma_table_shapes();
    assert(!table_shape(k));
    let t = tag_key_table();
    assert forall|i: int| 0 <= i < t.len() implies (#[trigger] t[i]).canonical_key != k && t[i].alias_key != Some(k) by {
        assert(table_shape(t[i].canonical_key));
    }
    lemma_mapped_unlisted(k, t);
}

proof fn lemma_key_fixed_ambience()
    ensures
        canonical_tag_key("ambience"@) == "ambience"@,
        "ambience"@.len() > 0,
        forall|i: int| 0 <= i < "ambience"@.len() ==> is_key_char(#[trigger] "ambience"@[i]),
{
    reveal_strlit("ambience");
    let k = "ambience"@;
    assert("ambience"@.len() == 8);
    assert("ambience"@[0] == 'a');
    assert("ambience"@[1] == 'm');
    assert("ambience"@[6] == 'c');
    assert("ambience"@[7] == 'e');
    assert forall|i: int| 0 <= i < k.len() implies is_key_char(#[trigger] k[i]) by {
        if i == 0 {} else if i == 1 {} else if i == 2 {} else if i == 3 {} else if i == 4 {} else if i == 5 {} else if i == 6 {} else if i == 7 {}
    }
    lemma_key_chars_fixed(k);
    lemma_table_shapes();
    assert(!table_shape(k));
    let t = tag_key_table();
    assert forall|i: int| 0 <= i < t.len() implies (#[trigger] t[i]).canonical_key != k && t[i].alias_key != Some(k) by {
        assert(table_shape(t[i].canonical_key));
    }
    lemma_mapped_unlisted(k, t);
}

proof fn lemma_key_fixed_music()
    ensures
        canonical_tag_key("music"@) == "music"@,
        "music"@.len() > 0,
        forall|i: int| 0 <= i < "music"@.len() ==> is_key_char(#[trigger] "music"@[i]),
{
    reveal_strlit("music");
    let k = "music"@;
    assert("music"@.len() == 5);
    assert("music"@[0] == 'm');
    assert("music"@[1] == 'u');
    assert("music"@[3] == 'i');
    assert("music"@[4] == 'c');
    assert forall|i: int| 0 <= i < k.len() implies is_key_char(#[trigger] k[i]) by {
        if i == 0 {} else if i == 1 {} else if i == 2 {} else if i == 3 {} else if i == 4 {}
    }
    lemma_key_chars_fixed(k);
    lemma_table_shapes();
    assert(!table_shape(k));
    let t = tag_key_table();
    assert forall|i: int| 0 <= i < t.len() implies (#[trigger] t[i]).canonical_key != k && t[i].alias_key != Some(k) by {
        assert(table_shape(t[i].canonical_key));
    }
    lemma_mapped_unlisted(k, t);
}

proof fn lemma_key_fixed_sfx()
    ensures
        canonical_tag_key("sfx"@) == "sfx"@,
        "sfx"@.len() > 0,
        forall|i: int| 0 <= i < "sfx"@.len() ==> is_key_char(#[trigger] "sfx"@[i]),
{
    reveal_strlit("sfx");
    let k = "sfx"@;
    assert("sfx"@.len() == 3);
    assert("sfx"@[0] == 's');
    assert("sfx"@[1] == 'f');
    assert("sfx"@[1] == 'f');
    assert("sfx"@[2] == 'x');
    assert forall|i: int| 0 <= i < k.len() implies is_key_char(#[trigger] k[i]) by {
        if i == 0 {} else if i == 1 {} else if i == 2 {}
    }
    lemma_key_chars_fixed(k);
    lemma_table_shapes();
    assert(!table_shape(k));
    let t = tag_key_table();
    assert forall|i: int| 0 <= i < t.len() implies (#[trigger] t[i]).canonical_key != k && t[i].alias_key != Some(k) by {
        assert(table_shape(t[i].canonical_key));
    }
    lemma_mapped_unlisted(k, t);
}

proof fn lemma_key_fixed_delivery()
    ensures
        canonical_tag_key("delivery"@) == "delivery"@,
        "delivery"@.len() > 0,
        forall|i: int| 0 <= i < "delivery"@.len() ==> is_key_char(#[trigger] "delivery"@[i]),
{
    reveal_strlit("delivery");
    let k = "delivery"@;
    assert("delivery"@.len() == 8);
    assert("delivery"@[0] == 'd');
    assert("delivery"@[1] == 'e');
    assert("delivery"@[6] == 'r');
    assert("delivery"@[7] == 'y');
    assert forall|i: int| 0 <= i < k.len() implies is_key_char(#[trigger] k[i]) by {
        if i == 0 {} else if i == 1 {} else if i == 2 {} else if i == 3 {} else if i == 4 {} else if i == 5 {} else if i == 6 {} else if i == 7 {}
    }
    lemma_key_chars_fixed(k);
    lemma_table_shapes();
    assert(!table_shape(k));
    let t = tag_key_table();
    assert forall|i: int| 0 <= i < t.len() implies (#[trigger] t[i]).canonical_key != k && t[i].alias_key != Some(k) by {
        assert(table_shape(t[i].canonical_key));
    }
    lemma_mapped_unlisted(k, t);
}

proof fn lemma_key_fixed_temporal_order()
    ensures
        canonical_tag_key("temporal_order"@) == "temporal_order"@,
        "temporal_order"@.len() > 0,
        forall|i: int| 0 <= i < "temporal_order"@.len() ==> is_key_char(#[trigger] "temporal_order"@[i]),
{
    reveal_strlit("temporal_order");
    let k = "temporal_order"@;
    assert("temporal_order"@.len() == 14);
    assert("temporal_order"@[0] == 't');
    assert("temporal_order"@[1] == 'e');
    assert("temporal_order"@[12] == 'e');
    assert("temporal_order"@[13] == 'r');
    assert forall|i: int| 0 <= i < k.len() implies is_key_char(#[trigger] k[i]) by {
        if i == 0 {} else if i == 1 {} else if i == 2 {} else if i == 3 {} else if i == 4 {} else if i == 5 {} else if i == 6 {} else if i == 7 {} else if i == 8 {} else if i == 9 {} else if i == 10 {} else if i == 11 {} else if i == 12 {} else if i == 13 {}
    }
    lemma_key_chars_fixed(k);
    lemma_table_shapes();
    assert(!table_shape(k));
    let t = tag_key_table();
    assert forall|i: int| 0 <= i < t.len() implies (#[trigger] t[i]).canonical_key != k && t[i].alias_key != Some(k) by {
        assert(table_shape(t[i].canonical_key));
    }
    lemma_mapped_unlisted(k, t);
}

proof fn lemma_key_fixed_temporal_duration()
    ensures
        canonical_tag_key("temporal_duration"@) == "temporal_duration"@,
        "temporal_duration"@.len() > 0,
        forall|i: int| 0 <= i < "temporal_duration"@.len() ==> is_key_char(#[trigger] "temporal_duration"@[i]),
{
    reveal_strlit("temporal_duration");
    let k = "temporal_duration"@;
    assert("temporal_duration"@.len() == 17);
    assert("temporal_duration"@[0] == 't');
    assert("temporal_duration"@[1] == 'e');
    assert("temporal_duration"@[15] == 'o');
    assert("temporal_duration"@[16] == 'n');
    assert forall|i: int| 0 <= i < k.len() implies is_key_char(#[trigger] k[i]) by {
        if i == 0 {} else if i == 1 {} else if i == 2 {} else if i == 3 {} else if i == 4 {} else if i == 5 {} else if i == 6 {} else if i == 7 {} else if i == 8 {} else if i == 9 {} else if i == 10 {} else if i == 11 {} else if i == 12 {} else if i == 13 {} else if i == 14 {} else if i == 15 {} else if i == 16 {}
    }
    lemma_key_chars_fixed(k);
    lemma_table_shapes();
    assert(!table_shape(k));
    let t = tag_key_table();
    assert forall|i: int| 0 <= i < t.len() implies (#[trigger] t[i]).canonical_key != k && t[i].alias_key != Some(k) by {
        assert(table_shape(t[i].canonical_key));
    }
    lemma_mapped_unlisted(k, t);
}

proof fn lemma_key_fixed_temporal_frequency()
    ensures
        canonical_tag_key("temporal_frequency"@) == "temporal_frequency"@,
        "temporal_frequency"@.len() > 0,
        forall|i: int| 0 <= i < "temporal_frequency"@.len() ==> is_key_char(#[trigger] "temporal_frequency"@[i]),
{
    reveal_strlit("temporal_frequency");
    let k = "temporal_frequency"@;
    assert("temporal_frequency"@.len() == 18);
    assert("temporal_frequency"@[0] == 't');
    assert("temporal_frequency"@[1] == 'e');
    assert("temporal_frequency"@[16] == 'c');
    assert("temporal_frequency"@[17] == 'y');
    assert forall|i: int| 0 <= i < k.len() implies is_key_char(#[trigger] k[i]) by {
        if i == 0 {} else if i == 1 {} else if i == 2 {} else if i == 3 {} else if i == 4 {} else if i == 5 {} else if i == 6 {} else if i == 7 {} else if i == 8 {} else if i == 9 {} else if i == 10 {} else if i == 11 {} else if i == 12 {} else if i == 13 {} else if i == 14 {} else if i == 15 {} else if i == 16 {} else if i == 17 {}
    }
    lemma_key_chars_fixed(k);
    lemma_table_shapes();
    assert(!table_shape(k));
    let t = tag_key_table();
    assert forall|i: int| 0 <= i < t.len() implies (#[trigger] t[i]).canonical_key != k && t[i].alias_key != Some(k) by {
        assert(table_shape(t[i].canonical_key));
    }
    lemma_mapped_unlisted(k, t);
}

proof fn lemma_key_fixed_reader_effect()
    ensures
        canonical_tag_key("reader_effect"@) == "reader_effect"@,
        "reader_effect"@.len() > 0,
        forall|i: int| 0 <= i < "reader_effect"@.len() ==> is_key_char(#[trigger] "reader_effect"@[i]),
{
    reveal_strlit("reader_effect");
    let k = "reader_effect"@;
    assert("reader_effect"@.len() == 13);
    assert("reader_effect"@[0] == 'r');
    assert("reader_effect"@[1] == 'e');
    assert("reader_effect"@[11] == 'c');
    assert("reader_effect"@[12] == 't');
    assert forall|i: int| 0 <= i < k.len() implies is_key_char(#[trigger] k[i]) by {
        if i == 0 {} else if i == 1 {} else if i == 2 {} else if i == 3 {} else if i == 4 {} else if i == 5 {} else if i == 6 {} else if i == 7 {} else if i == 8 {} else if i == 9 {} else if i == 10 {} else if i == 11 {} else if i == 12 {}
    }
    lemma_key_chars_fixed(k);
    lemma_table_shapes();
    assert(!table_shape(k));
    let t = tag_key_table();
    assert forall|i: int| 0 <= i < t.len() implies (#[trigger] t[i]).canonical_key != k && t[i].alias_key != Some(k) by {
        assert(table_shape(t[i].canonical_key));
    }
    lemma_mapped_unlisted(k, t);
}

proof fn lemma_key_fixed_intertextual()
    ensures
        canonical_tag_key("intertextual"@) == "intertextual"@,
        "intertextual"@.len() > 0,
        forall|i: int| 0 <= i < "intertextual"@.len() ==> is_key_char(#[trigger] "intertextual"@[i]),
{
    reveal_strlit("intertextual");
    let k = "intertextual"@;
    assert("intertextual"@.len() == 12);
    assert("intertextual"@[0] == 'i');
    assert("intertextual"@[1] == 'n');
    assert("intertextual"@[10] == 'a');
    assert("intertextual"@[11] == 'l');
    assert forall|i: int| 0 <= i < k.len() implies is_key_char(#[trigger] k[i]) by {
        if i == 0 {} else if i == 1 {} else if i == 2 {} else if i == 3 {} else if i == 4 {} else if i == 5 {} else if i == 6 {} else if i == 7 {} else if i == 8 {} else if i == 9 {} else if i == 10 {} else if i == 11 {}
    }
    lemma_key_chars_fixed(k);
    lemma_table_shapes();
    assert(!table_shape(k));
    let t = tag_key_table();
    assert forall|i: int| 0 <= i < t.len() implies (#[trigger] t[i]).canonical_key != k && t[i].alias_key != Some(k) by {
        assert(table_shape(t[i].canonical_key));
    }
    lemma_mapped_unlisted(k, t);
}

proof fn lemma_key_fixed_bloom_mode()
    ensures
        canonical_tag_key("bloom_mode"@) == "bloom_mode"@,
        "bloom_mode"@.len() > 0,
        forall|i: int| 0 <= i < "bloom_mode"@.len() ==> is_key_char(#[trigger] "bloom_mode"@[i]),
{
    reveal_strlit("bloom_mode");
    let k = "bloom_mode"@;
    assert("bloom_mode"@.len() == 10);
    assert("bloom_mode"@[0] == 'b');
    assert("bloom_mode"@[1] == 'l');
    assert("bloom_mode"@[8] == 'd');
    assert("bloom_mode"@[9] == 'e');
    assert forall|i: int| 0 <= i < k.len() implies is_key_char(#[trigger] k[i]) by {
        if i == 0 {} else if i == 1 {} else if i == 2 {} else if i == 3 {} else if i == 4 {} else if i == 5 {} else if i == 6 {} else if i == 7 {} else if i == 8 {} else if i == 9 {}
    }
    lemma_key_chars_fixed(k);
    lemma_table_shapes();
    assert(!table_shape(k));
    let t = tag_key_table();
    assert forall|i: int| 0 <= i < t.len() implies (#[trigger] t[i]).canonical_key != k && t[i].alias_key != Some(k) by {
        assert(table_shape(t[i].canonical_key));
    }
    lemma_mapped_unlisted(k, t);
}

proof fn lemma_key_fixed_metaphor()
    ensures
        canonical_tag_key("metaphor"@) == "metaphor"@,
        "metaphor"@.len() > 0,
        forall|i: int| 0 <= i < "metaphor"@.len() ==> is_key_char(#[trigger] "metaphor"@[i]),
{
    reveal_strlit("metaphor");
    let k = "metaphor"@;
    assert("metaphor"@.len() == 8);
    assert("metaphor"@[0] == 'm');
    assert("metaphor"@[1] == 'e');
    assert("metaphor"@[6] == 'o');
    assert("metaphor"@[7] == 'r');
    assert forall|i: int| 0 <= i < k.len() implies is_key_char(#[trigger] k[i]) by {
        if i == 0 {} else if i == 1 {} else if i == 2 {} else if i == 3 {} else if i == 4 {} else if i == 5 {} else if i == 6 {} else if i == 7 {}
    }
    lemma_key_chars_fixed(k);
    lemma_table_shapes();
    assert(!table_shape(k));
    let t = tag_key_table();
    assert forall|i: int| 0 <= i < t.len() implies (#[trigger] t[i]).canonical_key != k && t[i].alias_key != Some(k) by {
        assert(table_shape(t[i].canonical_key));
    }
    lemma_mapped_unlisted(k, t);
}

proof fn lemma_key_fixed_irony()
    ensures
        canonical_tag_key("irony"@) == "irony"@,
        "irony"@.len() > 0,
        forall|i: int| 0 <= i < "irony"@.len() ==> is_key_char(#[trigger] "irony"@[i]),
{
    reveal_strlit("irony");
    let k = "irony"@;
    assert("irony"@.len() == 5);
    assert("irony"@[0] == 'i');
    assert("irony"@[1] == 'r');
    assert("irony"@[3] == 'n');
    assert("irony"@[4] == 'y');
    assert forall|i: int| 0 <= i < k.len() implies is_key_char(#[trigger] k[i]) by {
        if i == 0 {} else if i == 1 {} else if i == 2 {} else if i == 3 {} else if i == 4 {}
    }
    lemma_key_chars_fixed(k);
    lemma_table_shapes();
    assert(!table_shape(k));
    let t = tag_key_table();
    assert forall|i: int| 0 <= i < t.len() implies (#[trigger] t[i]).canonical_key != k && t[i].alias_key != Some(k) by {
        assert(table_shape(t[i].canonical_key));
    }
    lemma_mapped_unlisted(k, t);
}

proof fn lemma_key_fixed_comic_mode()
    ensures
        canonical_tag_key("comic_mode"@) == "comic_mode"@,
        "comic_mode"@.len() > 0,
        forall|i: int| 0 <= i < "comic_mode"@.len() ==> is_key_char(#[trigger] "comic_mode"@[i]),
{
    reveal_strlit("comic_mode");
    let k = "comic_mode"@;
    assert("comic_mode"@.len() == 10);
    assert("comic_mode"@[0] == 'c');
    assert("comic_mode"@[1] == 'o');
    assert("comic_mode"@[8] == 'd');
    assert("comic_mode"@[9] == 'e');
    assert forall|i: int| 0 <= i < k.len() implies is_key_char(#[trigger] k[i]) by {
        if i == 0 {} else if i == 1 {} else if i == 2 {} else if i == 3 {} else if i == 4 {} else if i == 5 {} else if i == 6 {} else if i == 7 {} else if i == 8 {} else if i == 9 {}
    }
    lemma_key_chars_fixed(k);
    lemma_table_shapes();
    assert(!table_shape(k));
    let t = tag_key_table();
    assert forall|i: int| 0 <= i < t.len() implies (#[trigger] t[i]).canonical_key != k && t[i].alias_key != Some(k) by {
        assert(table_shape(t[i].canonical_key));
    }
    lemma_mapped_unlisted(k, t);
}

proof fn lemma_key_fixed_comedy_theory()
    ensures
        canonical_tag_key("comedy_theory"@) == "comedy_theory"@,
        "comedy_theory"@.len() > 0,
        forall|i: int| 0 <= i < "comedy_theory"@.len() ==> is_key_char(#[trigger] "comedy_theory"@[i]),
{
    reveal_strlit("comedy_theory");
    let k = "comedy_theory"@;
    assert("comedy_theory"@.len() == 13);
    assert("comedy_theory"@[0] == 'c');
    assert("comedy_theory"@[1] == 'o');
    assert("comedy_theory"@[11] == 'r');
    assert("comedy_theory"@[12] == 'y');
    assert forall|i: int| 0 <= i < k.len() implies is_key_char(#[trigger] k[i]) by {
        if i == 0 {} else if i == 1 {} else if i == 2 {} else if i == 3 {} else if i == 4 {} else if i == 5 {} else if i == 6 {} else if i == 7 {} else if i == 8 {} else if i == 9 {} else if i == 10 {} else if i == 11 {} else if i == 12 {}
    }
    lemma_key_chars_fixed(k);
    lemma_table_shapes();
    assert(!table_shape(k));
    let t = tag_key_table();
    assert forall|i: int| 0 <= i < t.len() implies (#[trigger] t[i]).canonical_key != k && t[i].alias_key != Some(k) by {
        assert(table_shape(t[i].canonical_key));
    }
    lemma_mapped_unlisted(k, t);
}

proof fn lemma_key_fixed_trauma_mode()
    ensures
        canonical_tag_key("trauma_mode"@) == "trauma_mode"@,
        "trauma_mode"@.len() > 0,
        forall|i: int| 0 <= i < "trauma_mode"@.len() ==> is_key_char(#[trigger] "trauma_mode"@[i]),
{
    reveal_strlit("trauma_mode");
    let k = "trauma_mode"@;
    assert("trauma_mode"@.len() == 11);
    assert("trauma_mode"@[0] == 't');
    assert("trauma_mode"@[1] == 'r');
    assert("trauma_mode"@[9] == 'd');
    assert("trauma_mode"@[10] == 'e');
    assert forall|i: int| 0 <= i < k.len() implies is_key_char(#[trigger] k[i]) by {
        if i == 0 {} else if i == 1 {} else if i == 2 {} else if i == 3 {} else if i == 4 {} else if i == 5 {} else if i == 6 {} else if i == 7 {} else if i == 8 {} else if i == 9 {} else if i == 10 {}
    }
    lemma_key_chars_fixed(k);
    lemma_table_shapes();
    assert(!table_shape(k));
    let t = tag_key_table();
    assert forall|i: int| 0 <= i < t.len() implies (#[trigger] t[i]).canonical_key != k && t[i].alias_key != Some(k) by {
        assert(table_shape(t[i].canonical_key));
    }
    lemma_mapped_unlisted(k, t);
}

proof fn lemma_key_fixed_recovery_stage()
    ensures
        canonical_tag_key("recovery_stage"@) == "recovery_stage"@,
        "recovery_stage"@.len() > 0,
        forall|i: int| 0 <= i < "recovery_stage"@.len() ==> is_key_char(#[trigger] "recovery_stage"@[i]),
{
    reveal_strlit("recovery_stage");
    let k = "recovery_stage"@;
    assert("recovery_stage"@.len() == 14);
    assert("recovery_stage"@[0] == 'r');
    assert("recovery_stage"@[1] == 'e');
    assert("recovery_stage"@[12] == 'g');
    assert("recovery_stage"@[13] == 'e');
    assert forall|i: int| 0 <= i < k.len() implies is_key_char(#[trigger] k[i]) by {
        if i == 0 {} else if i == 1 {} else if i == 2 {} else if i == 3 {} else if i == 4 {} else if i == 5 {} else if i == 6 {} else if i == 7 {} else if i == 8 {} else if i == 9 {} else if i == 10 {} else if i == 11 {} else if i == 12 {} else if i == 13 {}
    }
    lemma_key_chars_fixed(k);
    lemma_table_shapes();
    assert(!table_shape(k));
    let t = tag_key_table();
    assert forall|i: int| 0 <= i < t.len() implies (#[trigger] t[i]).canonical_key != k && t[i].alias_key != Some(k) by {
        assert(table_shape(t[i].canonical_key));
    }
    lemma_mapped_unlisted(k, t);
}

proof fn lemma_key_fixed_pentad_element()
    ensures
        canonical_tag_key("pentad_element"@) == "pentad_element"@,
        "pentad_element"@.len() > 0,
        forall|i: int| 0 <= i < "pentad_element"@.len() ==> is_key_char(#[trigger] "pentad_element"@[i]),
{
    reveal_strlit("pentad_element");
    let k = "pentad_element"@;
    assert("pentad_element"@.len() == 14);
    assert("pentad_element"@[0] == 'p');
    assert("pentad_element"@[1] == 'e');
    assert("pentad_element"@[12] == 'n');
    assert("pentad_element"@[13] == 't');
    assert forall|i: int| 0 <= i < k.len() implies is_key_char(#[trigger] k[i]) by {
        if i == 0 {} else if i == 1 {} else if i == 2 {} else if i == 3 {} else if i == 4 {} else if i == 5 {} else if i == 6 {} else if i == 7 {} else if i == 8 {} else if i == 9 {} else if i == 10 {} else if i == 11 {} else if i == 12 {} else if i == 13 {}
    }
    lemma_key_chars_fixed(k);
    lemma_table_shapes();
    assert(!table_shape(k));
    let t = tag_key_table();
    assert forall|i: int| 0 <= i < t.len() implies (#[trigger] t[i]).canonical_key != k && t[i].alias_key != Some(k) by {
        assert(table_shape(t[i].canonical_key));
    }
    lemma_mapped_unlisted(k, t);
}

proof fn lemma_key_fixed_pentad_ratio()
    ensures
        canonical_tag_key("pentad_ratio"@) == "pentad_ratio"@,
        "pentad_ratio"@.len() > 0,
        forall|i: int| 0 <= i < "pentad_ratio"@.len() ==> is_key_char(#[trigger] "pentad_ratio"@[i]),
{
    reveal_strlit("pentad_ratio");
    let k = "pentad_ratio"@;
    assert("pentad_ratio"@.len() == 12);
    assert("pentad_ratio"@[0] == 'p');
    assert("pentad_ratio"@[1] == 'e');
    assert("pentad_ratio"@[10] == 'i');
    assert("pentad_ratio"@[11] == 'o');
    assert forall|i: int| 0 <= i < k.len() implies is_key_char(#[trigger] k[i]) by {
        if i == 0 {} else if i == 1 {} else if i == 2 {} else if i == 3 {} else if i == 4 {} else if i == 5 {} else if i == 6 {} else if i == 7 {} else if i == 8 {} else if i == 9 {} else if i == 10 {} else if i == 11 {}
    }
    lemma_key_chars_fixed(k);
    lemma_table_shapes();
    assert(!table_shape(k));
    let t = tag_key_table();
    assert forall|i: int| 0 <= i < t.len() implies (#[trigger] t[i]).canonical_key != k && t[i].alias_key != Some(k) by {
        assert(table_shape(t[i].canonical_key));
    }
    lemma_mapped_unlisted(k, t);
}

proof fn lemma_key_fixed_burke_form()
    ensures
        canonical_tag_key("burke_form"@) == "burke_form"@,
        "burke_form"@.len() > 0,
        forall|i: int| 0 <= i < "burke_form"@.len() ==> is_key_char(#[trigger] "burke_form"@[i]),
{
    reveal_strlit("burke_form");
    let k = "burke_form"@;
    assert("burke_form"@.len() == 10);
    assert("burke_form"@[0] == 'b');
    assert("burke_form"@[1] == 'u');
    assert("burke_form"@[8] == 'r');
    assert("burke_form"@[9] == 'm');
    assert forall|i: int| 0 <= i < k.len() implies is_key_char(#[trigger] k[i]) by {
        if i == 0 {} else if i == 1 {} else if i == 2 {} else if i == 3 {} else if i == 4 {} else if i == 5 {} else if i == 6 {} else if i == 7 {} else if i == 8 {} else if i == 9 {}
    }
    lemma_key_chars_fixed(k);
    lemma_table_shapes();
    assert(!table_shape(k));
    let t = tag_key_table();
    assert forall|i: int| 0 <= i < t.len() implies (#[trigger] t[i]).canonical_key != k && t[i].alias_key != Some(k) by {
        assert(table_shape(t[i].canonical_key));
    }
    lemma_mapped_unlisted(k, t);
}

proof fn lemma_key_fixed_emplotment()
    ensures
        canonical_tag_key("emplotment"@) == "emplotment"@,
        "emplotment"@.len() > 0,
        forall|i: int| 0 <= i < "emplotment"@.len() ==> is_key_char(#[trigger] "emplotment"@[i]),
{
    reveal_strlit("emplotment");
    let k = "emplotment"@;
    assert("emplotment"@.len() == 10);
    assert("emplotment"@[0] == 'e');
    assert("emplotment"@[1] == 'm');
    assert("emplotment"@[8] == 'n');
    assert("emplotment"@[9] == 't');
    assert forall|i: int| 0 <= i < k.len() implies is_key_char(#[trigger] k[i]) by {
        if i == 0 {} else if i == 1 {} else if i == 2 {} else if i == 3 {} else if i == 4 {} else if i == 5 {} else if i == 6 {} else if i == 7 {} else if i == 8 {} else if i == 9 {}
    }
    lemma_key_chars_fixed(k);
    lemma_table_shapes();
    assert(!table_shape(k));
    let t = tag_key_table();
    assert forall|i: int| 0 <= i < t.len() implies (#[trigger] t[i]).canonical_key != k && t[i].alias_key != Some(k) by {
        assert(table_shape(t[i].canonical_key));
    }
    lemma_mapped_unlisted(k, t);
}

proof fn lemma_key_fixed_mimesis()
    ensures
        canonical_tag_key("mimesis"@) == "mimesis"@,
        "mimesis"@.len() > 0,
        forall|i: int| 0 <= i < "mimesis"@.len() ==> is_key_char(#[trigger] "mimesis"@[i]),
{
    reveal_strlit("mimesis");
    let k = "mimesis"@;
    assert("mimesis"@.len() == 7);
    assert("mimesis"@[0] == 'm');
    assert("mimesis"@[1] == 'i');
    assert("mimesis"@[5] == 'i');
    assert("mimesis"@[6] == 's');
    assert forall|i: int| 0 <= i < k.len() implies is_key_char(#[trigger] k[i]) by {
        if i == 0 {} else if i == 1 {} else if i == 2 {} else if i == 3 {} else if i == 4 {} else if i == 5 {} else if i == 6 {}
    }
    lemma_key_chars_fixed(k);
    lemma_table_shapes();
    assert(!table_shape(k));
    let t = tag_key_table();
    assert forall|i: int| 0 <= i < t.len() implies (#[trigger] t[i]).canonical_key != k && t[i].alias_key != Some(k) by {
        assert(table_shape(t[i].canonical_key));
    }
    lemma_mapped_unlisted(k, t);
}

proof fn lemma_key_fixed_spatial_practice()
    ensures
        canonical_tag_key("spatial_practice"@) == "spatial_practice"@,
        "spatial_practice"@.len() > 0,
        forall|i: int| 0 <= i < "spatial_practice"@.len() ==> is_key_char(#[trigger] "spatial_practice"@[i]),
{
    reveal_strlit("spatial_practice");
    let k = "spatial_practice"@;
    assert("spatial_practice"@.len() == 16);
    assert("spatial_practice"@[0] == 's');
    assert("spatial_practice"@[1] == 'p');
    assert("spatial_practice"@[14] == 'c');
    assert("spatial_practice"@[15] == 'e');
    assert forall|i: int| 0 <= i < k.len() implies is_key_char(#[trigger] k[i]) by {
        if i == 0 {} else if i == 1 {} else if i == 2 {} else if i == 3 {} else if i == 4 {} else if i == 5 {} else if i == 6 {} else if i == 7 {} else if i == 8 {} else if i == 9 {} else if i == 10 {} else if i == 11 {} else if i == 12 {} else if i == 13 {} else if i == 14 {} else if i == 15 {}
    }
    lemma_key_chars_fixed(k);
    lemma_table_shapes();
    assert(!table_shape(k));
    let t = tag_key_table();
    assert forall|i: int| 0 <= i < t.len() implies (#[trigger] t[i]).canonical_key != k && t[i].alias_key != Some(k) by {
        assert(table_shape(t[i].canonical_key));
    }
    lemma_mapped_unlisted(k, t);
}

proof fn lemma_key_fixed_ethics()
    ensures
        canonical_tag_key("ethics"@) == "ethics"@,
        "ethics"@.len() > 0,
        forall|i: int| 0 <= i < "ethics"@.len() ==> is_key_char(#[trigger] "ethics"@[i]),
{
    reveal_strlit("ethics");
    let k = "ethics"@;
    assert("ethics"@.len() == 6);
    assert("ethics"@[0] == 'e');
    assert("ethics"@[1] == 't');
    assert("ethics"@[4] == 'c');
    assert("ethics"@[5] == 's');
    assert forall|i: int| 0 <= i < k.len() implies is_key_char(#[trigger] k[i]) by {
        if i == 0 {} else if i == 1 {} else if i == 2 {} else if i == 3 {} else if i == 4 {} else if i == 5 {}
    }
    lemma_key_chars_fixed(k);
    lemma_table_shapes();
    assert(!table_shape(k));
    let t = tag_key_table();
    assert forall|i: int| 0 <= i < t.len() implies (#[trigger] t[i]).canonical_key != k && t[i].alias_key != Some(k) by {
        assert(table_shape(t[i].canonical_key));
    }
    lemma_mapped_unlisted(k, t);
}

proof fn lemma_key_fixed_cultural_structure()
    ensures
        canonical_tag_key("cultural_structure"@) == "cultural_structure"@,
        "cultural_structure"@.len() > 0,
        forall|i: int| 0 <= i < "cultural_structure"@.len() ==> is_key_char(#[trigger] "cultural_structure"@[i]),
{
    reveal_strlit("cultural_structure");
    let k = "cultural_structure"@;
    assert("cultural_structure"@.len() == 18);
    assert("cultural_structure"@[0] == 'c');
    assert("cultural_structure"@[1] == 'u');
    assert("cultural_structure"@[16] == 'r');
    assert("cultural_structure"@[17] == 'e');
    assert forall|i: int| 0 <= i < k.len() implies is_key_char(#[trigger] k[i]) by {
        if i == 0 {} else if i == 1 {} else if i == 2 {} else if i == 3 {} else if i == 4 {} else if i == 5 {} else if i == 6 {} else if i == 7 {} else if i == 8 {} else if i == 9 {} else if i == 10 {} else if i == 11 {} else if i == 12 {} else if i == 13 {} else if i == 14 {} else if i == 15 {} else if i == 16 {} else if i == 17 {}
    }
    lemma_key_chars_fixed(k);
    lemma_table_shapes();
    assert(!table_shape(k));
    let t = tag_key_table();
    assert forall|i: int| 0 <= i < t.len() implies (#[trigger] t[i]).canonical_key != k && t[i].alias_key != Some(k) by {
        assert(table_shape(t[i].canonical_key));
    }
    lemma_mapped_unlisted(k, t);
}

proof fn lemma_key_fixed_survivrance()
    ensures
        canonical_tag_key("survivrance"@) == "survivrance"@,
        "survivrance"@.len() > 0,
        forall|i: int| 0 <= i < "survivrance"@.len() ==> is_key_char(#[trigger] "survivrance"@[i]),
{
    reveal_strlit("survivrance");
    let k = "survivrance"@;
    assert("survivrance"@.len() == 11);
    assert("survivrance"@[0] == 's');
    assert("survivrance"@[1] == 'u');
    assert("survivrance"@[9] == 'c');
    assert("survivrance"@[10] == 'e');
    assert forall|i: int| 0 <= i < k.len() implies is_key_char(#[trigger] k[i]) by {
        if i == 0 {} else if i == 1 {} else if i == 2 {} else if i == 3 {} else if i == 4 {} else if i == 5 {} else if i == 6 {} else if i == 7 {} else if i == 8 {} else if i == 9 {} else if i == 10 {}
    }
    lemma_key_chars_fixed(k);
    lemma_table_shapes();
    assert(!table_shape(k));
    let t = tag_key_table();
    assert forall|i: int| 0 <= i < t.len() implies (#[trigger] t[i]).canonical_key != k && t[i].alias_key != Some(k) by {
        assert(table_shape(t[i].canonical_key));
    }
    lemma_mapped_unlisted(k, t);
}

proof fn lemma_key_fixed_queer_time()
    ensures
        canonical_tag_key("queer_time"@) == "queer_time"@,
        "queer_time"@.len() > 0,
        forall|i: int| 0 <= i < "queer_time"@.len() ==> is_key_char(#[trigger] "queer_time"@[i]),
{
    reveal_strlit("queer_time");
    let k = "queer_time"@;
    assert("queer_time"@.len() == 10);
    assert("queer_time"@[0] == 'q');
    assert("queer_time"@[1] == 'u');
    assert("queer_time"@[8] == 'm');
    assert("queer_time"@[9] == 'e');
    assert forall|i: int| 0 <= i < k.len() implies is_key_char(#[trigger] k[i]) by {
        if i == 0 {} else if i == 1 {} else if i == 2 {} else if i == 3 {} else if i == 4 {} else if i == 5 {} else if i == 6 {} else if i == 7 {} else if i == 8 {} else if i == 9 {}
    }
    lemma_key_chars_fixed(k);
    lemma_table_shapes();
    assert(!table_shape(k));
    let t = tag_key_table();
    assert forall|i: int| 0 <= i < t.len() implies (#[trigger] t[i]).canonical_key != k && t[i].alias_key != Some(k) by {
        assert(table_shape(t[i].canonical_key));
    }
    lemma_mapped_unlisted(k, t);
}

proof fn lemma_key_fixed_disability_rep()
    ensures
        canonical_tag_key("disability_rep"@) == "disability_rep"@,
        "disability_rep"@.len() > 0,
        forall|i: int| 0 <= i < "disability_rep"@.len() ==> is_key_char(#[trigger] "disability_rep"@[i]),
{
    reveal_strlit("disability_rep");
    let k = "disability_rep"@;
    assert("disability_rep"@.len() == 14);
    assert("disability_rep"@[0] == 'd');
    assert("disability_rep"@[1] == 'i');
    assert("disability_rep"@[12] == 'e');
    assert("disability_rep"@[13] == 'p');
    assert forall|i: int| 0 <= i < k.len() implies is_key_char(#[trigger] k[i]) by {
        if i == 0 {} else if i == 1 {} else if i == 2 {} else if i == 3 {} else if i == 4 {} else if i == 5 {} else if i == 6 {} else if i == 7 {} else if i == 8 {} else if i == 9 {} else if i == 10 {} else if i == 11 {} else if i == 12 {} else if i == 13 {}
    }
    lemma_key_chars_fixed(k);
    lemma_table_shapes();
    assert(!table_shape(k));
    let t = tag_key_table();
    assert forall|i: int| 0 <= i < t.len() implies (#[trigger] t[i]).canonical_key != k && t[i].alias_key != Some(k) by {
        assert(table_shape(t[i].canonical_key));
    }
    lemma_mapped_unlisted(k, t);
}

proof fn lemma_key_fixed_affect()
    ensures
        canonical_tag_key("affect"@) == "affect"@,
        "affect"@.len() > 0,
        forall|i: int| 0 <= i < "affect"@.len() ==> is_key_char(#[trigger] "affect"@[i]),
{
    reveal_strlit("affect");
    let k = "affect"@;
    assert("affect"@.len() == 6);
    assert("affect"@[0] == 'a');
    assert("affect"@[1] == 'f');
    assert("affect"@[4] == 'c');
    assert("affect"@[5] == 't');
    assert forall|i: int| 0 <= i < k.len() implies is_key_char(#[trigger] k[i]) by {
        if i == 0 {} else if i == 1 {} else if i == 2 {} else if i == 3 {} else if i == 4 {} else if i == 5 {}
    }
    lemma_key_chars_fixed(k);
    lemma_table_shapes();
    assert(!table_shape(k));
    let t = tag_key_table();
    assert forall|i: int| 0 <= i < t.len() implies (#[trigger] t[i]).canonical_key != k && t[i].alias_key != Some(k) by {
        assert(table_shape(t[i].canonical_key));
    }
    lemma_mapped_unlisted(k, t);
}

proof fn lemma_key_fixed_transitivity()
    ensures
        canonical_tag_key("transitivity"@) == "transitivity"@,
        "transitivity"@.len() > 0,
        forall|i: int| 0 <= i < "transitivity"@.len() ==> is_key_char(#[trigger] "transitivity"@[i]),
{
    reveal_strlit("transitivity");
    let k = "transitivity"@;
    assert("transitivity"@.len() == 12);
    assert("transitivity"@[0] == 't');
    assert("transitivity"@[1] == 'r');
    assert("transitivity"@[10] == 't');
    assert("transitivity"@[11] == 'y');
    assert forall|i: int| 0 <= i < k.len() implies is_key_char(#[trigger] k[i]) by {
        if i == 0 {} else if i == 1 {} else if i == 2 {} else if i == 3 {} else if i == 4 {} else if i == 5 {} else if i == 6 {} else if i == 7 {} else if i == 8 {} else if i == 9 {} else if i == 10 {} else if i == 11 {}
    }
    lemma_key_chars_fixed(k);
    lemma_table_shapes();
    assert(!table_shape(k));
    let t = tag_key_table();
    assert forall|i: int| 0 <= i < t.len() implies (#[trigger] t[i]).canonical_key != k && t[i].alias_key != Some(k) by {
        assert(table_shape(t[i].canonical_key));
    }
    lemma_mapped_unlisted(k, t);
}

proof fn lemma_key_fixed_jakobson()
    ensures
        canonical_tag_key("jakobson"@) == "jakobson"@,
        "jakobson"@.len() > 0,
        forall|i: int| 0 <= i < "jakobson"@.len() ==> is_key_char(#[trigger] "jakobson"@[i]),
{
    reveal_strlit("jakobson");
    let k = "jakobson"@;
    assert("jakobson"@.len() == 8);
    assert("jakobson"@[0] == 'j');
    assert("jakobson"@[1] == 'a');
    assert("jakobson"@[6] == 'o');
    assert("jakobson"@[7] == 'n');
    assert forall|i: int| 0 <= i < k.len() implies is_key_char(#[trigger] k[i]) by {
        if i == 0 {} else if i == 1 {} else if i == 2 {} else if i == 3 {} else if i == 4 {} else if i == 5 {} else if i == 6 {} else if i == 7 {}
    }
    lemma_key_chars_fixed(k);
    lemma_table_shapes();
    assert(!table_shape(k));
    let t = tag_key_table();
    assert forall|i: int| 0 <= i < t.len() implies (#[trigger] t[i]).canonical_key != k && t[i].alias_key != Some(k) by {
        assert(table_shape(t[i].canonical_key));
    }
    lemma_mapped_unlisted(k, t);
}

proof fn lemma_key_fixed_sign_type()
    ensures
        canonical_tag_key("sign_type"@) == "sign_type"@,
        "sign_type"@.len() > 0,
        forall|i: int| 0 <= i < "sign_type"@.len() ==> is_key_char(#[trigger] "sign_type"@[i]),
{
    reveal_strlit("sign_type");
    let k = "sign_type"@;
    assert("sign_type"@.len() == 9);
    assert("sign_type"@[0] == 's');
    assert("sign_type"@[1] == 'i');
    assert("sign_type"@[7] == 'p');
    assert("sign_type"@[8] == 'e');
    assert forall|i: int| 0 <= i < k.len() implies is_key_char(#[trigger] k[i]) by {
        if i == 0 {} else if i == 1 {} else if i == 2 {} else if i == 3 {} else if i == 4 {} else if i == 5 {} else if i == 6 {} else if i == 7 {} else if i == 8 {}
    }
    lemma_key_chars_fixed(k);
    lemma_table_shapes();
    assert(!table_shape(k));
    let t = tag_key_table();
    assert forall|i: int| 0 <= i < t.len() implies (#[trigger] t[i]).canonical_key != k && t[i].alias_key != Some(k) by {
        assert(table_shape(t[i].canonical_key));
    }
    lemma_mapped_unlisted(k, t);
}

proof fn lemma_key_fixed_ya_narrator()
    ensures
        canonical_tag_key("ya_narrator"@) == "ya_narrator"@,
        "ya_narrator"@.len() > 0,
        forall|i: int| 0 <= i < "ya_narrator"@.len() ==> is_key_char(#[trigger] "ya_narrator"@[i]),
{
    reveal_strlit("ya_narrator");
    let k = "ya_narrator"@;
    assert("ya_narrator"@.len() == 11);
    assert("ya_narrator"@[0] == 'y');
    assert("ya_narrator"@[1] == 'a');
    assert("ya_narrator"@[9] == 'o');
    assert("ya_narrator"@[10] == 'r');
    assert forall|i: int| 0 <= i < k.len() implies is_key_char(#[trigger] k[i]) by {
        if i == 0 {} else if i == 1 {} else if i == 2 {} else if i == 3 {} else if i == 4 {} else if i == 5 {} else if i == 6 {} else if i == 7 {} else if i == 8 {} else if i == 9 {} else if i == 10 {}
    }
    lemma_key_chars_fixed(k);
    lemma_table_shapes();
    assert(!table_shape(k));
    let t = tag_key_table();
    assert forall|i: int| 0 <= i < t.len() implies (#[trigger] t[i]).canonical_key != k && t[i].alias_key != Some(k) by {
        assert(table_shape(t[i].canonical_key));
    }
    lemma_mapped_unlisted(k, t);
}

proof fn lemma_key_fixed_revision_pass()
    ensures
        canonical_tag_key("revision_pass"@) == "revision_pass"@,
        "revision_pass"@.len() > 0,
        forall|i: int| 0 <= i < "revision_pass"@.len() ==> is_key_char(#[trigger] "revision_pass"@[i]),
{
    reveal_strlit("revision_pass");
    let k = "revision_pass"@;
    assert("revision_pass"@.len() == 13);
    assert("revision_pass"@[0] == 'r');
    assert("revision_pass"@[1] == 'e');
    assert("revision_pass"@[11] == 's');
    assert("revision_pass"@[12] == 's');
    assert forall|i: int| 0 <= i < k.len() implies is_key_char(#[trigger] k[i]) by {
        if i == 0 {} else if i == 1 {} else if i == 2 {} else if i == 3 {} else if i == 4 {} else if i == 5 {} else if i == 6 {} else if i == 7 {} else if i == 8 {} else if i == 9 {} else if i == 10 {} else if i == 11 {} else if i == 12 {}
    }
    lemma_key_chars_fixed(k);
    lemma_table_shapes();
    assert(!table_shape(k));
    let t = tag_key_table();
    assert forall|i: int| 0 <= i < t.len() implies (#[trigger] t[i]).canonical_key != k && t[i].alias_key != Some(k) by {
        assert(table_shape(t[i].canonical_key));
    }
    lemma_mapped_unlisted(k, t);
}

proof fn lemma_key_fixed_serial_arc()
    ensures
        canonical_tag_key("serial_arc"@) == "serial_arc"@,
        "serial_arc"@.len() > 0,
        forall|i: int| 0 <= i < "serial_arc"@.len() ==> is_key_char(#[trigger] "serial_arc"@[i]),
{
    reveal_strlit("serial_arc");
    let k = "serial_arc"@;
    assert("serial_arc"@.len() == 10);
    assert("serial_arc"@[0] == 's');
    assert("serial_arc"@[1] == 'e');
    assert("serial_arc"@[8] == 'r');
    assert("serial_arc"@[9] == 'c');
    assert forall|i: int| 0 <= i < k.len() implies is_key_char(#[trigger] k[i]) by {
        if i == 0 {} else if i == 1 {} else if i == 2 {} else if i == 3 {} else if i == 4 {} else if i == 5 {} else if i == 6 {} else if i == 7 {} else if i == 8 {} else if i == 9 {}
    }
    lemma_key_chars_fixed(k);
    lemma_table_shapes();
    assert(!table_shape(k));
    let t = tag_key_table();
    assert forall|i: int| 0 <= i < t.len() implies (#[trigger] t[i]).canonical_key != k && t[i].alias_key != Some(k) by {
        assert(table_shape(t[i].canonical_key));
    }
    lemma_mapped_unlisted(k, t);
}

proof fn lemma_key_fixed_freudian()
    ensures
        canonical_tag_key("freudian"@) == "freudian"@,
        "freudian"@.len() > 0,
        forall|i: int| 0 <= i < "freudian"@.len() ==> is_key_char(#[trigger] "freudian"@[i]),
{
    reveal_strlit("freudian");
    let k = "freudian"@;
    assert("freudian"@.len() == 8);
    assert("freudian"@[0] == 'f');
    assert("freudian"@[1] == 'r');
    assert("freudian"@[6] == 'a');
    assert("freudian"@[7] == 'n');
    assert forall|i: int| 0 <= i < k.len() implies is_key_char(#[trigger] k[i]) by {
        if i == 0 {} else if i == 1 {} else if i == 2 {} else if i == 3 {} else if i == 4 {} else if i == 5 {} else if i == 6 {} else if i == 7 {}
    }
    lemma_key_chars_fixed(k);
    lemma_table_shapes();
    assert(!table_shape(k));
    let t = tag_key_table();
    assert forall|i: int| 0 <= i < t.len() implies (#[trigger] t[i]).canonical_key != k && t[i].alias_key != Some(k) by {
        assert(table_shape(t[i].canonical_key));
    }
    lemma_mapped_unlisted(k, t);
}

proof fn lemma_key_fixed_lacan_register()
    ensures
        canonical_tag_key("lacan_register"@) == "lacan_register"@,
        "lacan_register"@.len() > 0,
        forall|i: int| 0 <= i < "lacan_register"@.len() ==> is_key_char(#[trigger] "lacan_register"@[i]),
{
    reveal_strlit("lacan_register");
    let k = "lacan_register"@;
    assert("lacan_register"@.len() == 14);
    assert("lacan_register"@[0] == 'l');
    assert("lacan_register"@[1] == 'a');
    assert("lacan_register"@[12] == 'e');
    assert("lacan_register"@[13] == 'r');
    assert forall|i: int| 0 <= i < k.len() implies is_key_char(#[trigger] k[i]) by {
        if i == 0 {} else if i == 1 {} else if i == 2 {} else if i == 3 {} else if i == 4 {} else if i == 5 {} else if i == 6 {} else if i == 7 {} else if i == 8 {} else if i == 9 {} else if i == 10 {} else if i == 11 {} else if i == 12 {} else if i == 13 {}
    }
    lemma_key_chars_fixed(k);
    lemma_table_shapes();
    assert(!table_shape(k));
    let t = tag_key_table();
    assert forall|i: int| 0 <= i < t.len() implies (#[trigger] t[i]).canonical_key != k && t[i].alias_key != Some(k) by {
        assert(table_shape(t[i].canonical_key));
    }
    lemma_mapped_unlisted(k, t);
}

proof fn lemma_key_fixed_abject()
    ensures
        canonical_tag_key("abject"@) == "abject"@,
        "abject"@.len() > 0,
        forall|i: int| 0 <= i < "abject"@.len() ==> is_key_char(#[trigger] "abject"@[i]),
{
    reveal_strlit("abject");
    let k = "abject"@;
    assert("abject"@.len() == 6);
    assert("abject"@[0] == 'a');
    assert("abject"@[1] == 'b');
    assert("abject"@[4] == 'c');
    assert("abject"@[5] == 't');
    assert forall|i: int| 0 <= i < k.len() implies is_key_char(#[trigger] k[i]) by {
        if i == 0 {} else if i == 1 {} else if i == 2 {} else if i == 3 {} else if i == 4 {} else if i == 5 {}
    }
    lemma_key_chars_fixed(k);
    lemma_table_shapes();
    assert(!table_shape(k));
    let t = tag_key_table();
    assert forall|i: int| 0 <= i < t.len() implies (#[trigger] t[i]).canonical_key != k && t[i].alias_key != Some(k) by {
        assert(table_shape(t[i].canonical_key));
    }
    lemma_mapped_unlisted(k, t);
}

proof fn lemma_key_fixed_postcolonial()
    ensures
        canonical_tag_key("postcolonial"@) == "postcolonial"@,
        "postcolonial"@.len() > 0,
        forall|i: int| 0 <= i < "postcolonial"@.len() ==> is_key_char(#[trigger] "postcolonial"@[i]),
{
    reveal_strlit("postcolonial");
    let k = "postcolonial"@;
    assert("postcolonial"@.len() == 12);
    assert("postcolonial"@[0] == 'p');
    assert("postcolonial"@[1] == 'o');
    assert("postcolonial"@[10] == 'a');
    assert("postcolonial"@[11] == 'l');
    assert forall|i: int| 0 <= i < k.len() implies is_key_char(#[trigger] k[i]) by {
        if i == 0 {} else if i == 1 {} else if i == 2 {} else if i == 3 {} else if i == 4 {} else if i == 5 {} else if i == 6 {} else if i == 7 {} else if i == 8 {} else if i == 9 {} else if i == 10 {} else if i == 11 {}
    }
    lemma_key_chars_fixed(k);
    lemma_table_shapes();
    assert(!table_shape(k));
    let t = tag_key_table();
    assert forall|i: int| 0 <= i < t.len() implies (#[trigger] t[i]).canonical_key != k && t[i].alias_key != Some(k) by {
        assert(table_shape(t[i].canonical_key));
    }
    lemma_mapped_unlisted(k, t);
}

proof fn lemma_key_fixed_ecocritical()
    ensures
        canonical_tag_key("ecocritical"@) == "ecocritical"@,
        "ecocritical"@.len() > 0,
        forall|i: int| 0 <= i < "ecocritical"@.len() ==> is_key_char(#[trigger] "ecocritical"@[i]),
{
    reveal_strlit("ecocritical");
    let k = "ecocritical"@;
    assert("ecocritical"@.len() == 11);
    assert("ecocritical"@[0] == 'e');
    assert("ecocritical"@[1] == 'c');
    assert("ecocritical"@[9] == 'a');
    assert("ecocritical"@[10] == 'l');
    assert forall|i: int| 0 <= i < k.len() implies is_key_char(#[trigger] k[i]) by {
        if i == 0 {} else if i == 1 {} else if i == 2 {} else if i == 3 {} else if i == 4 {} else if i == 5 {} else if i == 6 {} else if i == 7 {} else if i == 8 {} else if i == 9 {} else if i == 10 {}
    }
    lemma_key_chars_fixed(k);
    lemma_table_shapes();
    assert(!table_shape(k));
    let t = tag_key_table();
    assert forall|i: int| 0 <= i < t.len() implies (#[trigger] t[i]).canonical_key != k && t[i].alias_key != Some(k) by {
        assert(table_shape(t[i].canonical_key));
    }
    lemma_mapped_unlisted(k, t);
}

proof fn lemma_key_fixed_image_schema()
    ensures
        canonical_tag_key("image_schema"@) == "image_schema"@,
        "image_schema"@.len() > 0,
        forall|i: int| 0 <= i < "image_schema"@.len() ==> is_key_char(#[trigger] "image_schema"@[i]),
{
    reveal_strlit("image_schema");
    let k = "image_schema"@;
    assert("image_schema"@.len() == 12);
    assert("image_schema"@[0] == 'i');
    assert("image_schema"@[1] == 'm');
    assert("image_schema"@[10] == 'm');
    assert("image_schema"@[11] == 'a');
    assert forall|i: int| 0 <= i < k.len() implies is_key_char(#[trigger] k[i]) by {
        if i == 0 {} else if i == 1 {} else if i == 2 {} else if i == 3 {} else if i == 4 {} else if i == 5 {} else if i == 6 {} else if i == 7 {} else if i == 8 {} else if i == 9 {} else if i == 10 {} else if i == 11 {}
    }
    lemma_key_chars_fixed(k);
    lemma_table_shapes();
    assert(!table_shape(k));
    let t = tag_key_table();
    assert forall|i: int| 0 <= i < t.len() implies (#[trigger] t[i]).canonical_key != k && t[i].alias_key != Some(k) by {
        assert(table_shape(t[i].canonical_key));
    }
    lemma_mapped_unlisted(k, t);
}

proof fn lemma_key_fixed_defamiliarize()
    ensures
        canonical_tag_key("defamiliarize"@) == "defamiliarize"@,
        "defamiliarize"@.len() > 0,
        forall|i: int| 0 <= i < "defamiliarize"@.len() ==> is_key_char(#[trigger] "defamiliarize"@[i]),
{
    reveal_strlit("defamiliarize");
    let k = "defamiliarize"@;
    assert("defamiliarize"@.len() == 13);
    assert("defamiliarize"@[0] == 'd');
    assert("defamiliarize"@[1] == 'e');
    assert("defamiliarize"@[11] == 'z');
    assert("defamiliarize"@[12] == 'e');
    assert forall|i: int| 0 <= i < k.len() implies is_key_char(#[trigger] k[i]) by {
        if i == 0 {} else if i == 1 {} else if i == 2 {} else if i == 3 {} else if i == 4 {} else if i == 5 {} else if i == 6 {} else if i == 7 {} else if i == 8 {} else if i == 9 {} else if i == 10 {} else if i == 11 {} else if i == 12 {}
    }
    lemma_key_chars_fixed(k);
    lemma_table_shapes();
    assert(!table_shape(k));
    let t = tag_key_table();
    assert forall|i: int| 0 <= i < t.len() implies (#[trigger] t[i]).canonical_key != k && t[i].alias_key != Some(k) by {
        assert(table_shape(t[i].canonical_key));
    }
    lemma_mapped_unlisted(k, t);
}

proof fn lemma_key_fixed_semiotic_pos()
    ensures
        canonical_tag_key("semiotic_pos"@) == "semiotic_pos"@,
        "semiotic_pos"@.len() > 0,
        forall|i: int| 0 <= i < "semiotic_pos"@.len() ==> is_key_char(#[trigger] "semiotic_pos"@[i]),
{
    reveal_strlit("semiotic_pos");
    let k = "semiotic_pos"@;
    assert("semiotic_pos"@.len() == 12);
    assert("semiotic_pos"@[0] == 's');
    assert("semiotic_pos"@[1] == 'e');
    assert("semiotic_pos"@[10] == 'o');
    assert("semiotic_pos"@[11] == 's');
    assert forall|i: int| 0 <= i < k.len() implies is_key_char(#[trigger] k[i]) by {
        if i == 0 {} else if i == 1 {} else if i == 2 {} else if i == 3 {} else if i == 4 {} else if i == 5 {} else if i == 6 {} else if i == 7 {} else if i == 8 {} else if i == 9 {} else if i == 10 {} else if i == 11 {}
    }
    lemma_key_chars_fixed(k);
    lemma_table_shapes();
    assert(!table_shape(k));
    let t = tag_key_table();
    assert forall|i: int| 0 <= i < t.len() implies (#[trigger] t[i]).canonical_key != k && t[i].alias_key != Some(k) by {
        assert(table_shape(t[i].canonical_key));
    }
    lemma_mapped_unlisted(k, t);
}

proof fn lemma_key_fixed_experimental()
    ensures
        canonical_tag_key("experimental"@) == "experimental"@,
        "experimental"@.len() > 0,
        forall|i: int| 0 <= i < "experimental"@.len() ==> is_key_char(#[trigger] "experimental"@[i]),
{
    reveal_strlit("experimental");
    let k = "experimental"@;
    assert("experimental"@.len() == 12);
    assert("experimental"@[0] == 'e');
    assert("experimental"@[1] == 'x');
    assert("experimental"@[10] == 'a');
    assert("experimental"@[11] == 'l');
    assert forall|i: int| 0 <= i < k.len() implies is_key_char(#[trigger] k[i]) by {
        if i == 0 {} else if i == 1 {} else if i == 2 {} else if i == 3 {} else if i == 4 {} else if i == 5 {} else if i == 6 {} else if i == 7 {} else if i == 8 {} else if i == 9 {} else if i == 10 {} else if i == 11 {}
    }
    lemma_key_chars_fixed(k);
    lemma_table_shapes();
    assert(!table_shape(k));
    let t = tag_key_table();
    assert forall|i: int| 0 <= i < t.len() implies (#[trigger] t[i]).canonical_key != k && t[i].alias_key != Some(k) by {
        assert(table_shape(t[i].canonical_key));
    }
    lemma_mapped_unlisted(k, t);
}

proof fn lemma_key_fixed_posthuman()
    ensures
        canonical_tag_key("posthuman"@) == "posthuman"@,
        "posthuman"@.len() > 0,
        forall|i: int| 0 <= i < "posthuman"@.len() ==> is_key_char(#[trigger] "posthuman"@[i]),
{
    reveal_strlit("posthuman");
    let k = "posthuman"@;
    assert("posthuman"@.len() == 9);
    assert("posthuman"@[0] == 'p');
    assert("posthuman"@[1] == 'o');
    assert("posthuman"@[7] == 'a');
    assert("posthuman"@[8] == 'n');
    assert forall|i: int| 0 <= i < k.len() implies is_key_char(#[trigger] k[i]) by {
        if i == 0 {} else if i == 1 {} else if i == 2 {} else if i == 3 {} else if i == 4 {} else if i == 5 {} else if i == 6 {} else if i == 7 {} else if i == 8 {}
    }
    lemma_key_chars_fixed(k);
    lemma_table_shapes();
    assert(!table_shape(k));
    let t = tag_key_table();
    assert forall|i: int| 0 <= i < t.len() implies (#[trigger] t[i]).canonical_key != k && t[i].alias_key != Some(k) by {
        assert(table_shape(t[i].canonical_key));
    }
    lemma_mapped_unlisted(k, t);
}

proof fn lemma_key_fixed_marxist_mode()
    ensures
        canonical_tag_key("marxist_mode"@) == "marxist_mode"@,
        "marxist_mode"@.len() > 0,
        forall|i: int| 0 <= i < "marxist_mode"@.len() ==> is_key_char(#[trigger] "marxist_mode"@[i]),
{
    reveal_strlit("marxist_mode");
    let k = "marxist_mode"@;
    assert("marxist_mode"@.len() == 12);
    assert("marxist_mode"@[0] == 'm');
    assert("marxist_mode"@[1] == 'a');
    assert("marxist_mode"@[10] == 'd');
    assert("marxist_mode"@[11] == 'e');
    assert forall|i: int| 0 <= i < k.len() implies is_key_char(#[trigger] k[i]) by {
        if i == 0 {} else if i == 1 {} else if i == 2 {} else if i == 3 {} else if i == 4 {} else if i == 5 {} else if i == 6 {} else if i == 7 {} else if i == 8 {} else if i == 9 {} else if i == 10 {} else if i == 11 {}
    }
    lemma_key_chars_fixed(k);
    lemma_table_shapes();
    assert(!table_shape(k));
    let t = tag_key_table();
    assert forall|i: int| 0 <= i < t.len() implies (#[trigger] t[i]).canonical_key != k && t[i].alias_key != Some(k) by {
        assert(table_shape(t[i].canonical_key));
    }
    lemma_mapped_unlisted(k, t);
}

proof fn lemma_key_fixed_feminist()
    ensures
        canonical_tag_key("feminist"@) == "feminist"@,
        "feminist"@.len() > 0,
        forall|i: int| 0 <= i < "feminist"@.len() ==> is_key_char(#[trigger] "feminist"@[i]),
{
    reveal_strlit("feminist");
    let k = "feminist"@;
    assert("feminist"@.len() == 8);
    assert("feminist"@[0] == 'f');
    assert("feminist"@[1] == 'e');
    assert("feminist"@[6] == 's');
    assert("feminist"@[7] == 't');
    assert forall|i: int| 0 <= i < k.len() implies is_key_char(#[trigger] k[i]) by {
        if i == 0 {} else if i == 1 {} else if i == 2 {} else if i == 3 {} else if i == 4 {} else if i == 5 {} else if i == 6 {} else if i == 7 {}
    }
    lemma_key_chars_fixed(k);
    lemma_table_shapes();
    assert(!table_shape(k));
    let t = tag_key_table();
    assert forall|i: int| 0 <= i < t.len() implies (#[trigger] t[i]).canonical_key != k && t[i].alias_key != Some(k) by {
        assert(table_shape(t[i].canonical_key));
    }
    lemma_mapped_unlisted(k, t);
}

proof fn lemma_key_fixed_signifying()
    ensures
        canonical_tag_key("signifying"@) == "signifying"@,
        "signifying"@.len() > 0,
        forall|i: int| 0 <= i < "signifying"@.len() ==> is_key_char(#[trigger] "signifying"@[i]),
{
    reveal_strlit("signifying");
    let k = "signifying"@;
    assert("signifying"@.len() == 10);
    assert("signifying"@[0] == 's');
    assert("signifying"@[1] == 'i');
    assert("signifying"@[8] == 'n');
    assert("signifying"@[9] == 'g');
    assert forall|i: int| 0 <= i < k.len() implies is_key_char(#[trigger] k[i]) by {
        if i == 0 {} else if i == 1 {} else if i == 2 {} else if i == 3 {} else if i == 4 {} else if i == 5 {} else if i == 6 {} else if i == 7 {} else if i == 8 {} else if i == 9 {}
    }
    lemma_key_chars_fixed(k);
    lemma_table_shapes();
    assert(!table_shape(k));
    let t = tag_key_table();
    assert forall|i: int| 0 <= i < t.len() implies (#[trigger] t[i]).canonical_key != k && t[i].alias_key != Some(k) by {
        assert(table_shape(t[i].canonical_key));
    }
    lemma_mapped_unlisted(k, t);
}

proof fn lemma_key_fixed_cognitive()
    ensures
        canonical_tag_key("cognitive"@) == "cognitive"@,
        "cognitive"@.len() > 0,
        forall|i: int| 0 <= i < "cognitive"@.len() ==> is_key_char(#[trigger] "cognitive"@[i]),
{
    reveal_strlit("cognitive");
    let k = "cognitive"@;
    assert("cognitive"@.len() == 9);
    assert("cognitive"@[0] == 'c');
    assert("cognitive"@[1] == 'o');
    assert("cognitive"@[7] == 'v');
    assert("cognitive"@[8] == 'e');
    assert forall|i: int| 0 <= i < k.len() implies is_key_char(#[trigger] k[i]) by {
        if i == 0 {} else if i == 1 {} else if i == 2 {} else if i == 3 {} else if i == 4 {} else if i == 5 {} else if i == 6 {} else if i == 7 {} else if i == 8 {}
    }
    lemma_key_chars_fixed(k);
    lemma_table_shapes();
    assert(!table_shape(k));
    let t = tag_key_table();
    assert forall|i: int| 0 <= i < t.len() implies (#[trigger] t[i]).canonical_key != k && t[i].alias_key != Some(k) by {
        assert(table_shape(t[i].canonical_key));
    }
    lemma_mapped_unlisted(k, t);
}

proof fn lemma_key_fixed_prosodic()
    ensures
        canonical_tag_key("prosodic"@) == "prosodic"@,
        "prosodic"@.len() > 0,
        forall|i: int| 0 <= i < "prosodic"@.len() ==> is_key_char(#[trigger] "prosodic"@[i]),
{
    reveal_strlit("prosodic");
    let k = "prosodic"@;
    assert("prosodic"@.len() == 8);
    assert("prosodic"@[0] == 'p');
    assert("prosodic"@[1] == 'r');
    assert("prosodic"@[6] == 'i');
    assert("prosodic"@[7] == 'c');
    assert forall|i: int| 0 <= i < k.len() implies is_key_char(#[trigger] k[i]) by {
        if i == 0 {} else if i == 1 {} else if i == 2 {} else if i == 3 {} else if i == 4 {} else if i == 5 {} else if i == 6 {} else if i == 7 {}
    }
    lemma_key_chars_fixed(k);
    lemma_table_shapes();
    assert(!table_shape(k));
    let t = tag_key_table();
    assert forall|i: int| 0 <= i < t.len() implies (#[trigger] t[i]).canonical_key != k && t[i].alias_key != Some(k) by {
        assert(table_shape(t[i].canonical_key));
    }
    lemma_mapped_unlisted(k, t);
}

proof fn lemma_key_fixed_propp()
    ensures
        canonical_tag_key("propp"@) == "propp"@,
        "propp"@.len() > 0,
        forall|i: int| 0 <= i < "propp"@.len() ==> is_key_char(#[trigger] "propp"@[i]),
{
    reveal_strlit("propp");
    let k = "propp"@;
    assert("propp"@.len() == 5);
    assert("propp"@[0] == 'p');
    assert("propp"@[1] == 'r');
    assert("propp"@[3] == 'p');
    assert("propp"@[4] == 'p');
    assert forall|i: int| 0 <= i < k.len() implies is_key_char(#[trigger] k[i]) by {
        if i == 0 {} else if i == 1 {} else if i == 2 {} else if i == 3 {} else if i == 4 {}
    }
    lemma_key_chars_fixed(k);
    lemma_table_shapes();
    assert(!table_shape(k));
    let t = tag_key_table();
    assert forall|i: int| 0 <= i < t.len() implies (#[trigger] t[i]).canonical_key != k && t[i].alias_key != Some(k) by {
        assert(table_shape(t[i].canonical_key));
    }
    lemma_mapped_unlisted(k, t);
}

proof fn lemma_key_fixed_performativity()
    ensures
        canonical_tag_key("performativity"@) == "performativity"@,
        "performativity"@.len() > 0,
        forall|i: int| 0 <= i < "performativity"@.len() ==> is_key_char(#[trigger] "performativity"@[i]),
{
    reveal_strlit("performativity");
    let k = "performativity"@;
    assert("performativity"@.len() == 14);
    assert("performativity"@[0] == 'p');
    assert("performativity"@[1] == 'e');
    assert("performativity"@[12] == 't');
    assert("performativity"@[13] == 'y');
    assert forall|i: int| 0 <= i < k.len() implies is_key_char(#[trigger] k[i]) by {
        if i == 0 {} else if i == 1 {} else if i == 2 {} else if i == 3 {} else if i == 4 {} else if i == 5 {} else if i == 6 {} else if i == 7 {} else if i == 8 {} else if i == 9 {} else if i == 10 {} else if i == 11 {} else if i == 12 {} else if i == 13 {}
    }
    lemma_key_chars_fixed(k);
    lemma_table_shapes();
    assert(!table_shape(k));
    let t = tag_key_table();
    assert forall|i: int| 0 <= i < t.len() implies (#[trigger] t[i]).canonical_key != k && t[i].alias_key != Some(k) by {
        assert(table_shape(t[i].canonical_key));
    }
    lemma_mapped_unlisted(k, t);
}

proof fn lemma_key_fixed_autofiction()
    ensures
        canonical_tag_key("autofiction"@) == "autofiction"@,
        "autofiction"@.len() > 0,
        forall|i: int| 0 <= i < "autofiction"@.len() ==> is_key_char(#[trigger] "autofiction"@[i]),
{
    reveal_strlit("autofiction");
    let k = "autofiction"@;
    assert("autofiction"@.len() == 11);
    assert("autofiction"@[0] == 'a');
    assert("autofiction"@[1] == 'u');
    assert("autofiction"@[9] == 'o');
    assert("autofiction"@[10] == 'n');
    assert forall|i: int| 0 <= i < k.len() implies is_key_char(#[trigger] k[i]) by {
        if i == 0 {} else if i == 1 {} else if i == 2 {} else if i == 3 {} else if i == 4 {} else if i == 5 {} else if i == 6 {} else if i == 7 {} else if i == 8 {} else if i == 9 {} else if i == 10 {}
    }
    lemma_key_chars_fixed(k);
    lemma_table_shapes();
    assert(!table_shape(k));
    let t = tag_key_table();
    assert forall|i: int| 0 <= i < t.len() implies (#[trigger] t[i]).canonical_key != k && t[i].alias_key != Some(k) by {
        assert(table_shape(t[i].canonical_key));
    }
    lemma_mapped_unlisted(k, t);
}

proof fn lemma_key_fixed_narrative_ethics()
    ensures
        canonical_tag_key("narrative_ethics"@) == "narrative_ethics"@,
        "narrative_ethics"@.len() > 0,
        forall|i: int| 0 <= i < "narrative_ethics"@.len() ==> is_key_char(#[trigger] "narrative_ethics"@[i]),
{
    reveal_strlit("narrative_ethics");
    let k = "narrative_ethics"@;
    assert("narrative_ethics"@.len() == 16);
    assert("narrative_ethics"@[0] == 'n');
    assert("narrative_ethics"@[1] == 'a');
    assert("narrative_ethics"@[14] == 'c');
    assert("narrative_ethics"@[15] == 's');
    assert forall|i: int| 0 <= i < k.len() implies is_key_char(#[trigger] k[i]) by {
        if i == 0 {} else if i == 1 {} else if i == 2 {} else if i == 3 {} else if i == 4 {} else if i == 5 {} else if i == 6 {} else if i == 7 {} else if i == 8 {} else if i == 9 {} else if i == 10 {} else if i == 11 {} else if i == 12 {} else if i == 13 {} else if i == 14 {} else if i == 15 {}
    }
    lemma_key_chars_fixed(k);
    lemma_table_shapes();
    assert(!table_shape(k));
    let t = tag_key_table();
    assert forall|i: int| 0 <= i < t.len() implies (#[trigger] t[i]).canonical_key != k && t[i].alias_key != Some(k) by {
        assert(table_shape(t[i].canonical_key));
    }
    lemma_mapped_unlisted(k, t);
}

proof fn lemma_key_fixed_transmedia()
    ensures
        canonical_tag_key("transmedia"@) == "transmedia"@,
        "transmedia"@.len() > 0,
        forall|i: int| 0 <= i < "transmedia"@.len() ==> is_key_char(#[trigger] "transmedia"@[i]),
{
    reveal_strlit("transmedia");
    let k = "transmedia"@;
    assert("transmedia"@.len() == 10);
    assert("transmedia"@[0] == 't');
    assert("transmedia"@[1] == 'r');
    assert("transmedia"@[8] == 'i');
    assert("transmedia"@[9] == 'a');
    assert forall|i: int| 0 <= i < k.len() implies is_key_char(#[trigger] k[i]) by {
        if i == 0 {} else if i == 1 {} else if i == 2 {} else if i == 3 {} else if i == 4 {} else if i == 5 {} else if i == 6 {} else if i == 7 {} else if i == 8 {} else if i == 9 {}
    }
    lemma_key_chars_fixed(k);
    lemma_table_shapes();
    assert(!table_shape(k));
    let t = tag_key_table();
    assert forall|i: int| 0 <= i < t.len() implies (#[trigger] t[i]).canonical_key != k && t[i].alias_key != Some(k) by {
        assert(table_shape(t[i].canonical_key));
    }
    lemma_mapped_unlisted(k, t);
}

proof fn lemma_key_fixed_accessibility()
    ensures
        canonical_tag_key("accessibility"@) == "accessibility"@,
        "accessibility"@.len() > 0,
        forall|i: int| 0 <= i < "accessibility"@.len() ==> is_key_char(#[trigger] "accessibility"@[i]),
{
    reveal_strlit("accessibility");
    let k = "accessibility"@;
    assert("accessibility"@.len() == 13);
    assert("accessibility"@[0] == 'a');
    assert("accessibility"@[1] == 'c');
    assert("accessibility"@[11] == 't');
    assert("accessibility"@[12] == 'y');
    assert forall|i: int| 0 <= i < k.len() implies is_key_char(#[trigger] k[i]) by {
        if i == 0 {} else if i == 1 {} else if i == 2 {} else if i == 3 {} else if i == 4 {} else if i == 5 {} else if i == 6 {} else if i == 7 {} else if i == 8 {} else if i == 9 {} else if i == 10 {} else if i == 11 {} else if i == 12 {}
    }
    lemma_key_chars_fixed(k);
    lemma_table_shapes();
    assert(!table_shape(k));
    let t = tag_key_table();
    assert forall|i: int| 0 <= i < t.len() implies (#[trigger] t[i]).canonical_key != k && t[i].alias_key != Some(k) by {
        assert(table_shape(t[i].canonical_key));
    }
    lemma_mapped_unlisted(k, t);
}

proof fn lemma_key_fixed_adaptation()
    ensures
        canonical_tag_key("adaptation"@) == "adaptation"@,
        "adaptation"@.len() > 0,
        forall|i: int| 0 <= i < "adaptation"@.len() ==> is_key_char(#[trigger] "adaptation"@[i]),
{
    reveal_strlit("adaptation");
    let k = "adaptation"@;
    assert("adaptation"@.len() == 10);
    assert("adaptation"@[0] == 'a');
    assert("adaptation"@[1] == 'd');
    assert("adaptation"@[8] == 'o');
    assert("adaptation"@[9] == 'n');
    assert forall|i: int| 0 <= i < k.len() implies is_key_char(#[trigger] k[i]) by {
        if i == 0 {} else if i == 1 {} else if i == 2 {} else if i == 3 {} else if i == 4 {} else if i == 5 {} else if i == 6 {} else if i == 7 {} else if i == 8 {} else if i == 9 {}
    }
    lemma_key_chars_fixed(k);
    lemma_table_shapes();
    assert(!table_shape(k));
    let t = tag_key_table();
    assert forall|i: int| 0 <= i < t.len() implies (#[trigger] t[i]).canonical_key != k && t[i].alias_key != Some(k) by {
        assert(table_shape(t[i].canonical_key));
    }
    lemma_mapped_unlisted(k, t);
}

proof fn lemma_key_fixed_gricean()
    ensures
        canonical_tag_key("gricean"@) == "gricean"@,
        "gricean"@.len() > 0,
        forall|i: int| 0 <= i < "gricean"@.len() ==> is_key_char(#[trigger] "gricean"@[i]),
{
    reveal_strlit("gricean");
    let k = "gricean"@;
    assert("gricean"@.len() == 7);
    assert("gricean"@[0] == 'g');
    assert("gricean"@[1] == 'r');
    assert("gricean"@[5] == 'a');
    assert("gricean"@[6] == 'n');
    assert forall|i: int| 0 <= i < k.len() implies is_key_char(#[trigger] k[i]) by {
        if i == 0 {} else if i == 1 {} else if i == 2 {} else if i == 3 {} else if i == 4 {} else if i == 5 {} else if i == 6 {}
    }
    lemma_key_chars_fixed(k);
    lemma_table_shapes();
    assert(!table_shape(k));
    let t = tag_key_table();
    assert forall|i: int| 0 <= i < t.len() implies (#[trigger] t[i]).canonical_key != k && t[i].alias_key != Some(k) by {
        assert(table_shape(t[i].canonical_key));
    }
    lemma_mapped_unlisted(k, t);
}

proof fn lemma_key_fixed_intimate_space()
    ensures
        canonical_tag_key("intimate_space"@) == "intimate_space"@,
        "intimate_space"@.len() > 0,
        forall|i: int| 0 <= i < "intimate_space"@.len() ==> is_key_char(#[trigger] "intimate_space"@[i]),
{
    reveal_strlit("intimate_space");
    let k = "intimate_space"@;
    assert("intimate_space"@.len() == 14);
    assert("intimate_space"@[0] == 'i');
    assert("intimate_space"@[1] == 'n');
    assert("intimate_space"@[12] == 'c');
    assert("intimate_space"@[13] == 'e');
    assert forall|i: int| 0 <= i < k.len() implies is_key_char(#[trigger] k[i]) by {
        if i == 0 {} else if i == 1 {} else if i == 2 {} else if i == 3 {} else if i == 4 {} else if i == 5 {} else if i == 6 {} else if i == 7 {} else if i == 8 {} else if i == 9 {} else if i == 10 {} else if i == 11 {} else if i == 12 {} else if i == 13 {}
    }
    lemma_key_chars_fixed(k);
    lemma_table_shapes();
    assert(!table_shape(k));
    let t = tag_key_table();
    assert forall|i: int| 0 <= i < t.len() implies (#[trigger] t[i]).canonical_key != k && t[i].alias_key != Some(k) by {
        assert(table_shape(t[i].canonical_key));
    }
    lemma_mapped_unlisted(k, t);
}

proof fn lemma_key_fixed_multilingual()
    ensures
        canonical_tag_key("multilingual"@) == "multilingual"@,
        "multilingual"@.len() > 0,
        forall|i: int| 0 <= i < "multilingual"@.len() ==> is_key_char(#[trigger] "multilingual"@[i]),
{
    reveal_strlit("multilingual");
    let k = "multilingual"@;
    assert("multilingual"@.len() == 12);
    assert("multilingual"@[0] == 'm');
    assert("multilingual"@[1] == 'u');
    assert("multilingual"@[10] == 'a');
    assert("multilingual"@[11] == 'l');
    assert forall|i: int| 0 <= i < k.len() implies is_key_char(#[trigger] k[i]) by {
        if i == 0 {} else if i == 1 {} else if i == 2 {} else if i == 3 {} else if i == 4 {} else if i == 5 {} else if i == 6 {} else if i == 7 {} else if i == 8 {} else if i == 9 {} else if i == 10 {} else if i == 11 {}
    }
    lemma_key_chars_fixed(k);
    lemma_table_shapes();
    assert(!table_shape(k));
    let t = tag_key_table();
    assert forall|i: int| 0 <= i < t.len() implies (#[trigger] t[i]).canonical_key != k && t[i].alias_key != Some(k) by {
        assert(table_shape(t[i].canonical_key));
    }
    lemma_mapped_unlisted(k, t);
}

proof fn lemma_key_fixed_panel_transition()
    ensures
        canonical_tag_key("panel_transition"@) == "panel_transition"@,
        "panel_transition"@.len() > 0,
        forall|i: int| 0 <= i < "panel_transition"@.len() ==> is_key_char(#[trigger] "panel_transition"@[i]),
{
    reveal_strlit("panel_transition");
    let k = "panel_transition"@;
    assert("panel_transition"@.len() == 16);
    assert("panel_transition"@[0] == 'p');
    assert("panel_transition"@[1] == 'a');
    assert("panel_transition"@[14] == 'o');
    assert("panel_transition"@[15] == 'n');
    assert forall|i: int| 0 <= i < k.len() implies is_key_char(#[trigger] k[i]) by {
        if i == 0 {} else if i == 1 {} else if i == 2 {} else if i == 3 {} else if i == 4 {} else if i == 5 {} else if i == 6 {} else if i == 7 {} else if i == 8 {} else if i == 9 {} else if i == 10 {} else if i == 11 {} else if i == 12 {} else if i == 13 {} else if i == 14 {} else if i == 15 {}
    }
    lemma_key_chars_fixed(k);
    lemma_table_shapes();
    assert(!table_shape(k));
    let t = tag_key_table();
    assert forall|i: int| 0 <= i < t.len() implies (#[trigger] t[i]).canonical_key != k && t[i].alias_key != Some(k) by {
        assert(table_shape(t[i].canonical_key));
    }
    lemma_mapped_unlisted(k, t);
}

proof fn lemma_key_fixed_storywork()
    ensures
        canonical_tag_key("storywork"@) == "storywork"@,
        "storywork"@.len() > 0,
        forall|i: int| 0 <= i < "storywork"@.len() ==> is_key_char(#[trigger] "storywork"@[i]),
{
    reveal_strlit("storywork");
    let k = "storywork"@;
    assert("storywork"@.len() == 9);
    assert("storywork"@[0] == 's');
    assert("storywork"@[1] == 't');
    assert("storywork"@[7] == 'r');
    assert("storywork"@[8] == 'k');
    assert forall|i: int| 0 <= i < k.len() implies is_key_char(#[trigger] k[i]) by {
        if i == 0 {} else if i == 1 {} else if i == 2 {} else if i == 3 {} else if i == 4 {} else if i == 5 {} else if i == 6 {} else if i == 7 {} else if i == 8 {}
    }
    lemma_key_chars_fixed(k);
    lemma_table_shapes();
    assert(!table_shape(k));
    let t = tag_key_table();
    assert forall|i: int| 0 <= i < t.len() implies (#[trigger] t[i]).canonical_key != k && t[i].alias_key != Some(k) by {
        assert(table_shape(t[i].canonical_key));
    }
    lemma_mapped_unlisted(k, t);
}

proof fn lemma_key_fixed_translation()
    ensures
        canonical_tag_key("translation"@) == "translation"@,
        "translation"@.len() > 0,
        forall|i: int| 0 <= i < "translation"@.len() ==> is_key_char(#[trigger] "translation"@[i]),
{
    reveal_strlit("translation");
    let k = "translation"@;
    assert("translation"@.len() == 11);
    assert("translation"@[0] == 't');
    assert("translation"@[1] == 'r');
    assert("translation"@[9] == 'o');
    assert("translation"@[10] == 'n');
    assert forall|i: int| 0 <= i < k.len() implies is_key_char(#[trigger] k[i]) by {
        if i == 0 {} else if i == 1 {} else if i == 2 {} else if i == 3 {} else if i == 4 {} else if i == 5 {} else if i == 6 {} else if i == 7 {} else if i == 8 {} else if i == 9 {} else if i == 10 {}
    }
    lemma_key_chars_fixed(k);
    lemma_table_shapes();
    assert(!table_shape(k));
    let t = tag_key_table();
    assert forall|i: int| 0 <= i < t.len() implies (#[trigger] t[i]).canonical_key != k && t[i].alias_key != Some(k) by {
        assert(table_shape(t[i].canonical_key));
    }
    lemma_mapped_unlisted(k, t);
}

proof fn lemma_key_fixed_visual_verbal()
    ensures
        canonical_tag_key("visual_verbal"@) == "visual_verbal"@,
        "visual_verbal"@.len() > 0,
        forall|i: int| 0 <= i < "visual_verbal"@.len() ==> is_key_char(#[trigger] "visual_verbal"@[i]),
{
    reveal_strlit("visual_verbal");
    let k = "visual_verbal"@;
    assert("visual_verbal"@.len() == 13);
    assert("visual_verbal"@[0] == 'v');
    assert("visual_verbal"@[1] == 'i');
    assert("visual_verbal"@[11] == 'a');
    assert("visual_verbal"@[12] == 'l');
    assert forall|i: int| 0 <= i < k.len() implies is_key_char(#[trigger] k[i]) by {
        if i == 0 {} else if i == 1 {} else if i == 2 {} else if i == 3 {} else if i == 4 {} else if i == 5 {} else if i == 6 {} else if i == 7 {} else if i == 8 {} else if i == 9 {} else if i == 10 {} else if i == 11 {} else if i == 12 {}
    }
    lemma_key_chars_fixed(k);
    lemma_table_shapes();
    assert(!table_shape(k));
    let t = tag_key_table();
    assert forall|i: int| 0 <= i < t.len() implies (#[trigger] t[i]).canonical_key != k && t[i].alias_key != Some(k) by {
        assert(table_shape(t[i].canonical_key));
    }
    lemma_mapped_unlisted(k, t);
}

proof fn lemma_key_fixed_genre_reading()
    ensures
        canonical_tag_key("genre_reading"@) == "genre_reading"@,
        "genre_reading"@.len() > 0,
        forall|i: int| 0 <= i < "genre_reading"@.len() ==> is_key_char(#[trigger] "genre_reading"@[i]),
{
    reveal_strlit("genre_reading");
    let k = "genre_reading"@;
    assert("genre_reading"@.len() == 13);
    assert("genre_reading"@[0] == 'g');
    assert("genre_reading"@[1] == 'e');
    assert("genre_reading"@[11] == 'n');
    assert("genre_reading"@[12] == 'g');
    assert forall|i: int| 0 <= i < k.len() implies is_key_char(#[trigger] k[i]) by {
        if i == 0 {} else if i == 1 {} else if i == 2 {} else if i == 3 {} else if i == 4 {} else if i == 5 {} else if i == 6 {} else if i == 7 {} else if i == 8 {} else if i == 9 {} else if i == 10 {} else if i == 11 {} else if i == 12 {}
    }
    lemma_key_chars_fixed(k);
    lemma_table_shapes();
    assert(!table_shape(k));
    let t = tag_key_table();
    assert forall|i: int| 0 <= i < t.len() implies (#[trigger] t[i]).canonical_key != k && t[i].alias_key != Some(k) by {
        assert(table_shape(t[i].canonical_key));
    }
    lemma_mapped_unlisted(k, t);
}

proof fn lemma_key_fixed_scene_function()
    ensures
        canonical_tag_key("scene_function"@) == "scene_function"@,
        "scene_function"@.len() > 0,
        forall|i: int| 0 <= i < "scene_function"@.len() ==> is_key_char(#[trigger] "scene_function"@[i]),
{
    reveal_strlit("scene_function");
    let k = "scene_function"@;
    assert("scene_function"@.len() == 14);
    assert("scene_function"@[0] == 's');
    assert("scene_function"@[1] == 'c');
    assert("scene_function"@[12] == 'o');
    assert("scene_function"@[13] == 'n');
    assert forall|i: int| 0 <= i < k.len() implies is_key_char(#[trigger] k[i]) by {
        if i == 0 {} else if i == 1 {} else if i == 2 {} else if i == 3 {} else if i == 4 {} else if i == 5 {} else if i == 6 {} else if i == 7 {} else if i == 8 {} else if i == 9 {} else if i == 10 {} else if i == 11 {} else if i == 12 {} else if i == 13 {}
    }
    lemma_key_chars_fixed(k);
    lemma_table_shapes();
    assert(!table_shape(k));
    let t = tag_key_table();
    assert forall|i: int| 0 <= i < t.len() implies (#[trigger] t[i]).canonical_key != k && t[i].alias_key != Some(k) by {
        assert(table_shape(t[i].canonical_key));
    }
    lemma_mapped_unlisted(k, t);
}

proof fn lemma_key_fixed_scene_type()
    ensures
        canonical_tag_key("scene_type"@) == "scene_type"@,
        "scene_type"@.len() > 0,
        forall|i: int| 0 <= i < "scene_type"@.len() ==> is_key_char(#[trigger] "scene_type"@[i]),
{
    reveal_strlit("scene_type");
    let k = "scene_type"@;
    assert("scene_type"@.len() == 10);
    assert("scene_type"@[0] == 's');
    assert("scene_type"@[1] == 'c');
    assert("scene_type"@[8] == 'p');
    assert("scene_type"@[9] == 'e');
    assert forall|i: int| 0 <= i < k.len() implies is_key_char(#[trigger] k[i]) by {
        if i == 0 {} else if i == 1 {} else if i == 2 {} else if i == 3 {} else if i == 4 {} else if i == 5 {} else if i == 6 {} else if i == 7 {} else if i == 8 {} else if i == 9 {}
    }
    lemma_key_chars_fixed(k);
    lemma_table_shapes();
    assert(!table_shape(k));
    let t = tag_key_table();
    assert forall|i: int| 0 <= i < t.len() implies (#[trigger] t[i]).canonical_key != k && t[i].alias_key != Some(k) by {
        assert(table_shape(t[i].canonical_key));
    }
    lemma_mapped_unlisted(k, t);
}

proof fn lemma_key_fixed_conflict()
    ensures
        canonical_tag_key("conflict"@) == "conflict"@,
        "conflict"@.len() > 0,
        forall|i: int| 0 <= i < "conflict"@.len() ==> is_key_char(#[trigger] "conflict"@[i]),
{
    reveal_strlit("conflict");
    let k = "conflict"@;
    assert("conflict"@.len() == 8);
    assert("conflict"@[0] == 'c');
    assert("conflict"@[1] == 'o');
    assert("conflict"@[6] == 'c');
    assert("conflict"@[7] == 't');
    assert forall|i: int| 0 <= i < k.len() implies is_key_char(#[trigger] k[i]) by {
        if i == 0 {} else if i == 1 {} else if i == 2 {} else if i == 3 {} else if i == 4 {} else if i == 5 {} else if i == 6 {} else if i == 7 {}
    }
    lemma_key_chars_fixed(k);
    lemma_table_shapes();
    assert(!table_shape(k));
    let t = tag_key_table();
    assert forall|i: int| 0 <= i < t.len() implies (#[trigger] t[i]).canonical_key != k && t[i].alias_key != Some(k) by {
        assert(table_shape(t[i].canonical_key));
    }
    lemma_mapped_unlisted(k, t);
}

proof fn lemma_key_fixed_arc()
    ensures
        canonical_tag_key("arc"@) == "arc"@,
        "arc"@.len() > 0,
        forall|i: int| 0 <= i < "arc"@.len() ==> is_key_char(#[trigger] "arc"@[i]),
{
    reveal_strlit("arc");
    let k = "arc"@;
    assert("arc"@.len() == 3);
    assert("arc"@[0] == 'a');
    assert("arc"@[1] == 'r');
    assert("arc"@[1] == 'r');
    assert("arc"@[2] == 'c');
    assert forall|i: int| 0 <= i < k.len() implies is_key_char(#[trigger] k[i]) by {
        if i == 0 {} else if i == 1 {} else if i == 2 {}
    }
    lemma_key_chars_fixed(k);
    lemma_table_shapes();
    assert(!table_shape(k));
    let t = tag_key_table();
    assert forall|i: int| 0 <= i < t.len() implies (#[trigger] t[i]).canonical_key != k && t[i].alias_key != Some(k) by {
        assert(table_shape(t[i].canonical_key));
    }
    lemma_mapped_unlisted(k, t);
}

proof fn lemma_key_fixed_arc_pattern()
    ensures
        canonical_tag_key("arc_pattern"@) == "arc_pattern"@,
        "arc_pattern"@.len() > 0,
        forall|i: int| 0 <= i < "arc_pattern"@.len() ==> is_key_char(#[trigger] "arc_pattern"@[i]),
{
    reveal_strlit("arc_pattern");
    let k = "arc_pattern"@;
    assert("arc_pattern"@.len() == 11);
    assert("arc_pattern"@[0] == 'a');
    assert("arc_pattern"@[1] == 'r');
    assert("arc_pattern"@[9] == 'r');
    assert("arc_pattern"@[10] == 'n');
    assert forall|i: int| 0 <= i < k.len() implies is_key_char(#[trigger] k[i]) by {
        if i == 0 {} else if i == 1 {} else if i == 2 {} else if i == 3 {} else if i == 4 {} else if i == 5 {} else if i == 6 {} else if i == 7 {} else if i == 8 {} else if i == 9 {} else if i == 10 {}
    }
    lemma_key_chars_fixed(k);
    lemma_table_shapes();
    assert(!table_shape(k));
    let t = tag_key_table();
    assert forall|i: int| 0 <= i < t.len() implies (#[trigger] t[i]).canonical_key != k && t[i].alias_key != Some(k) by {
        assert(table_shape(t[i].canonical_key));
    }
    lemma_mapped_unlisted(k, t);
}

proof fn lemma_key_fixed_outcome()
    ensures
        canonical_tag_key("outcome"@) == "outcome"@,
        "outcome"@.len() > 0,
        forall|i: int| 0 <= i < "outcome"@.len() ==> is_key_char(#[trigger] "outcome"@[i]),
{
    reveal_strlit("outcome");
    let k = "outcome"@;
    assert("outcome"@.len() == 7);
    assert("outcome"@[0] == 'o');
    assert("outcome"@[1] == 'u');
    assert("outcome"@[5] == 'm');
    assert("outcome"@[6] == 'e');
    assert forall|i: int| 0 <= i < k.len() implies is_key_char(#[trigger] k[i]) by {
        if i == 0 {} else if i == 1 {} else if i == 2 {} else if i == 3 {} else if i == 4 {} else if i == 5 {} else if i == 6 {}
    }
    lemma_key_chars_fixed(k);
    lemma_table_shapes();
    assert(!table_shape(k));
    let t = tag_key_table();
    assert forall|i: int| 0 <= i < t.len() implies (#[trigger] t[i]).canonical_key != k && t[i].alias_key != Some(k) by {
        assert(table_shape(t[i].canonical_key));
    }
    lemma_mapped_unlisted(k, t);
}

proof fn lemma_key_fixed_sense()
    ensures
        canonical_tag_key("sense"@) == "sense"@,
        "sense"@.len() > 0,
        forall|i: int| 0 <= i < "sense"@.len() ==> is_key_char(#[trigger] "sense"@[i]),
{
    reveal_strlit("sense");
    let k = "sense"@;
    assert("sense"@.len() == 5);
    assert("sense"@[0] == 's');
    assert("sense"@[1] == 'e');
    assert("sense"@[3] == 's');
    assert("sense"@[4] == 'e');
    assert forall|i: int| 0 <= i < k.len() implies is_key_char(#[trigger] k[i]) by {
        if i == 0 {} else if i == 1 {} else if i == 2 {} else if i == 3 {} else if i == 4 {}
    }
    lemma_key_chars_fixed(k);
    lemma_table_shapes();
    assert(!table_shape(k));
    let t = tag_key_table();
    assert forall|i: int| 0 <= i < t.len() implies (#[trigger] t[i]).canonical_key != k && t[i].alias_key != Some(k) by {
        assert(table_shape(t[i].canonical_key));
    }
    lemma_mapped_unlisted(k, t);
}

proof fn lemma_key_fixed_time_of_day()
    ensures
        canonical_tag_key("time_of_day"@) == "time_of_day"@,
        "time_of_day"@.len() > 0,
        forall|i: int| 0 <= i < "time_of_day"@.len() ==> is_key_char(#[trigger] "time_of_day"@[i]),
{
    reveal_strlit("time_of_day");
    let k = "time_of_day"@;
    assert("time_of_day"@.len() == 11);
    assert("time_of_day"@[0] == 't');
    assert("time_of_day"@[1] == 'i');
    assert("time_of_day"@[9] == 'a');
    assert("time_of_day"@[10] == 'y');
    assert forall|i: int| 0 <= i < k.len() implies is_key_char(#[trigger] k[i]) by {
        if i == 0 {} else if i == 1 {} else if i == 2 {} else if i == 3 {} else if i == 4 {} else if i == 5 {} else if i == 6 {} else if i == 7 {} else if i == 8 {} else if i == 9 {} else if i == 10 {}
    }
    lemma_key_chars_fixed(k);
    lemma_table_shapes();
    assert(!table_shape(k));
    let t = tag_key_table();
    assert forall|i: int| 0 <= i < t.len() implies (#[trigger] t[i]).canonical_key != k && t[i].alias_key != Some(k) by {
        assert(table_shape(t[i].canonical_key));
    }
    lemma_mapped_unlisted(k, t);
}

proof fn lemma_key_fixed_weather()
    ensures
        canonical_tag_key("weather"@) == "weather"@,
        "weather"@.len() > 0,
        forall|i: int| 0 <= i < "weather"@.len() ==> is_key_char(#[trigger] "weather"@[i]),
{
    reveal_strlit("weather");
    let k = "weather"@;
    assert("weather"@.len() == 7);
    assert("weather"@[0] == 'w');
    assert("weather"@[1] == 'e');
    assert("weather"@[5] == 'e');
    assert("weather"@[6] == 'r');
    assert forall|i: int| 0 <= i < k.len() implies is_key_char(#[trigger] k[i]) by {
        if i == 0 {} else if i == 1 {} else if i == 2 {} else if i == 3 {} else if i == 4 {} else if i == 5 {} else if i == 6 {}
    }
    lemma_key_chars_fixed(k);
    lemma_table_shapes();
    assert(!table_shape(k));
    let t = tag_key_table();
    assert forall|i: int| 0 <= i < t.len() implies (#[trigger] t[i]).canonical_key != k && t[i].alias_key != Some(k) by {
        assert(table_shape(t[i].canonical_key));
    }
    lemma_mapped_unlisted(k, t);
}

proof fn lemma_key_fixed_world_delivery()
    ensures
        canonical_tag_key("world_delivery"@) == "world_delivery"@,
        "world_delivery"@.len() > 0,
        forall|i: int| 0 <= i < "world_delivery"@.len() ==> is_key_char(#[trigger] "world_delivery"@[i]),
{
    reveal_strlit("world_delivery");
    let k = "world_delivery"@;
    assert("world_delivery"@.len() == 14);
    assert("world_delivery"@[0] == 'w');
    assert("world_delivery"@[1] == 'o');
    assert("world_delivery"@[12] == 'r');
    assert("world_delivery"@[13] == 'y');
    assert forall|i: int| 0 <= i < k.len() implies is_key_char(#[trigger] k[i]) by {
        if i == 0 {} else if i == 1 {} else if i == 2 {} else if i == 3 {} else if i == 4 {} else if i == 5 {} else if i == 6 {} else if i == 7 {} else if i == 8 {} else if i == 9 {} else if i == 10 {} else if i == 11 {} else if i == 12 {} else if i == 13 {}
    }
    lemma_key_chars_fixed(k);
    lemma_table_shapes();
    assert(!table_shape(k));
    let t = tag_key_table();
    assert forall|i: int| 0 <= i < t.len() implies (#[trigger] t[i]).canonical_key != k && t[i].alias_key != Some(k) by {
        assert(table_shape(t[i].canonical_key));
    }
    lemma_mapped_unlisted(k, t);
}

proof fn lemma_key_fixed_pov()
    ensures
        canonical_tag_key("pov"@) == "pov"@,
        "pov"@.len() > 0,
        forall|i: int| 0 <= i < "pov"@.len() ==> is_key_char(#[trigger] "pov"@[i]),
{
    reveal_strlit("pov");
    let k = "pov"@;
    assert("pov"@.len() == 3);
    assert("pov"@[0] == 'p');
    assert("pov"@[1] == 'o');
    assert("pov"@[1] == 'o');
    assert("pov"@[2] == 'v');
    assert forall|i: int| 0 <= i < k.len() implies is_key_char(#[trigger] k[i]) by {
        if i == 0 {} else if i == 1 {} else if i == 2 {}
    }
    lemma_key_chars_fixed(k);
    lemma_table_shapes();
    assert(!table_shape(k));
    let t = tag_key_table();
    assert forall|i: int| 0 <= i < t.len() implies (#[trigger] t[i]).canonical_key != k && t[i].alias_key != Some(k) by {
        assert(table_shape(t[i].canonical_key));
    }
    lemma_mapped_unlisted(k, t);
}

proof fn lemma_key_fixed_focalization_type()
    ensures
        canonical_tag_key("focalization_type"@) == "focalization_type"@,
        "focalization_type"@.len() > 0,
        forall|i: int| 0 <= i < "focalization_type"@.len() ==> is_key_char(#[trigger] "focalization_type"@[i]),
{
    reveal_strlit("focalization_type");
    let k = "focalization_type"@;
    assert("focalization_type"@.len() == 17);
    assert("focalization_type"@[0] == 'f');
    assert("focalization_type"@[1] == 'o');
    assert("focalization_type"@[15] == 'p');
    assert("focalization_type"@[16] == 'e');
    assert forall|i: int| 0 <= i < k.len() implies is_key_char(#[trigger] k[i]) by {
        if i == 0 {} else if i == 1 {} else if i == 2 {} else if i == 3 {} else if i == 4 {} else if i == 5 {} else if i == 6 {} else if i == 7 {} else if i == 8 {} else if i == 9 {} else if i == 10 {} else if i == 11 {} else if i == 12 {} else if i == 13 {} else if i == 14 {} else if i == 15 {} else if i == 16 {}
    }
    lemma_key_chars_fixed(k);
    lemma_table_shapes();
    assert(!table_shape(k));
    let t = tag_key_table();
    assert forall|i: int| 0 <= i < t.len() implies (#[trigger] t[i]).canonical_key != k && t[i].alias_key != Some(k) by {
        assert(table_shape(t[i].canonical_key));
    }
    lemma_mapped_unlisted(k, t);
}

proof fn lemma_key_fixed_knowledge()
    ensures
        canonical_tag_key("knowledge"@) == "knowledge"@,
        "knowledge"@.len() > 0,
        forall|i: int| 0 <= i < "knowledge"@.len() ==> is_key_char(#[trigger] "knowledge"@[i]),
{
    reveal_strlit("knowledge");
    let k = "knowledge"@;
    assert("knowledge"@.len() == 9);
    assert("knowledge"@[0] == 'k');
    assert("knowledge"@[1] == 'n');
    assert("knowledge"@[7] == 'g');
    assert("knowledge"@[8] == 'e');
    assert forall|i: int| 0 <= i < k.len() implies is_key_char(#[trigger] k[i]) by {
        if i == 0 {} else if i == 1 {} else if i == 2 {} else if i == 3 {} else if i == 4 {} else if i == 5 {} else if i == 6 {} else if i == 7 {} else if i == 8 {}
    }
    lemma_key_chars_fixed(k);
    lemma_table_shapes();
    assert(!table_shape(k));
    let t = tag_key_table();
    assert forall|i: int| 0 <= i < t.len() implies (#[trigger] t[i]).canonical_key != k && t[i].alias_key != Some(k) by {
        assert(table_shape(t[i].canonical_key));
    }
    lemma_mapped_unlisted(k, t);
}

proof fn lemma_key_fixed_reliability()
    ensures
        canonical_tag_key("reliability"@) == "reliability"@,
        "reliability"@.len() > 0,
        forall|i: int| 0 <= i < "reliability"@.len() ==> is_key_char(#[trigger] "reliability"@[i]),
{
    reveal_strlit("reliability");
    let k = "reliability"@;
    assert("reliability"@.len() == 11);
    assert("reliability"@[0] == 'r');
    assert("reliability"@[1] == 'e');
    assert("reliability"@[9] == 't');
    assert("reliability"@[10] == 'y');
    assert forall|i: int| 0 <= i < k.len() implies is_key_char(#[trigger] k[i]) by {
        if i == 0 {} else if i == 1 {} else if i == 2 {} else if i == 3 {} else if i == 4 {} else if i == 5 {} else if i == 6 {} else if i == 7 {} else if i == 8 {} else if i == 9 {} else if i == 10 {}
    }
    lemma_key_chars_fixed(k);
    lemma_table_shapes();
    assert(!table_shape(k));
    let t = tag_key_table();
    assert forall|i: int| 0 <= i < t.len() implies (#[trigger] t[i]).canonical_key != k && t[i].alias_key != Some(k) by {
        assert(table_shape(t[i].canonical_key));
    }
    lemma_mapped_unlisted(k, t);
}

proof fn lemma_key_fixed_engagement()
    ensures
        canonical_tag_key("engagement"@) == "engagement"@,
        "engagement"@.len() > 0,
        forall|i: int| 0 <= i < "engagement"@.len() ==> is_key_char(#[trigger] "engagement"@[i]),
{
    reveal_strlit("engagement");
    let k = "engagement"@;
    assert("engagement"@.len() == 10);
    assert("engagement"@[0] == 'e');
    assert("engagement"@[1] == 'n');
    assert("engagement"@[8] == 'n');
    assert("engagement"@[9] == 't');
    assert forall|i: int| 0 <= i < k.len() implies is_key_char(#[trigger] k[i]) by {
        if i == 0 {} else if i == 1 {} else if i == 2 {} else if i == 3 {} else if i == 4 {} else if i == 5 {} else if i == 6 {} else if i == 7 {} else if i == 8 {} else if i == 9 {}
    }
    lemma_key_chars_fixed(k);
    lemma_table_shapes();
    assert(!table_shape(k));
    let t = tag_key_table();
    assert forall|i: int| 0 <= i < t.len() implies (#[trigger] t[i]).canonical_key != k && t[i].alias_key != Some(k) by {
        assert(table_shape(t[i].canonical_key));
    }
    lemma_mapped_unlisted(k, t);
}

proof fn lemma_key_fixed_narrative_distance()
    ensures
        canonical_tag_key("narrative_distance"@) == "narrative_distance"@,
        "narrative_distance"@.len() > 0,
        forall|i: int| 0 <= i < "narrative_distance"@.len() ==> is_key_char(#[trigger] "narrative_distance"@[i]),
{
    reveal_strlit("narrative_distance");
    let k = "narrative_distance"@;
    assert("narrative_distance"@.len() == 18);
    assert("narrative_distance"@[0] == 'n');
    assert("narrative_distance"@[1] == 'a');
    assert("narrative_distance"@[16] == 'c');
    assert("narrative_distance"@[17] == 'e');
    assert forall|i: int| 0 <= i < k.len() implies is_key_char(#[trigger] k[i]) by {
        if i == 0 {} else if i == 1 {} else if i == 2 {} else if i == 3 {} else if i == 4 {} else if i == 5 {} else if i == 6 {} else if i == 7 {} else if i == 8 {} else if i == 9 {} else if i == 10 {} else if i == 11 {} else if i == 12 {} else if i == 13 {} else if i == 14 {} else if i == 15 {} else if i == 16 {} else if i == 17 {}
    }
    lemma_key_chars_fixed(k);
    lemma_table_shapes();
    assert(!table_shape(k));
    let t = tag_key_table();
    assert forall|i: int| 0 <= i < t.len() implies (#[trigger] t[i]).canonical_key != k && t[i].alias_key != Some(k) by {
        assert(table_shape(t[i].canonical_key));
    }
    lemma_mapped_unlisted(k, t);
}

proof fn lemma_key_fixed_voice_structure()
    ensures
        canonical_tag_key("voice_structure"@) == "voice_structure"@,
        "voice_structure"@.len() > 0,
        forall|i: int| 0 <= i < "voice_structure"@.len() ==> is_key_char(#[trigger] "voice_structure"@[i]),
{
    reveal_strlit("voice_structure");
    let k = "voice_structure"@;
    assert("voice_structure"@.len() == 15);
    assert("voice_structure"@[0] == 'v');
    assert("voice_structure"@[1] == 'o');
    assert("voice_structure"@[13] == 'r');
    assert("voice_structure"@[14] == 'e');
    assert forall|i: int| 0 <= i < k.len() implies is_key_char(#[trigger] k[i]) by {
        if i == 0 {} else if i == 1 {} else if i == 2 {} else if i == 3 {} else if i == 4 {} else if i == 5 {} else if i == 6 {} else if i == 7 {} else if i == 8 {} else if i == 9 {} else if i == 10 {} else if i == 11 {} else if i == 12 {} else if i == 13 {} else if i == 14 {}
    }
    lemma_key_chars_fixed(k);
    lemma_table_shapes();
    assert(!table_shape(k));
    let t = tag_key_table();
    assert forall|i: int| 0 <= i < t.len() implies (#[trigger] t[i]).canonical_key != k && t[i].alias_key != Some(k) by {
        assert(table_shape(t[i].canonical_key));
    }
    lemma_mapped_unlisted(k, t);
}

proof fn lemma_key_fixed_sentence_length()
    ensures
        canonical_tag_key("sentence_length"@) == "sentence_length"@,
        "sentence_length"@.len() > 0,
        forall|i: int| 0 <= i < "sentence_length"@.len() ==> is_key_char(#[trigger] "sentence_length"@[i]),
{
    reveal_strlit("sentence_length");
    let k = "sentence_length"@;
    assert("sentence_length"@.len() == 15);
    assert("sentence_length"@[0] == 's');
    assert("sentence_length"@[1] == 'e');
    assert("sentence_length"@[13] == 't');
    assert("sentence_length"@[14] == 'h');
    assert forall|i: int| 0 <= i < k.len() implies is_key_char(#[trigger] k[i]) by {
        if i == 0 {} else if i == 1 {} else if i == 2 {} else if i == 3 {} else if i == 4 {} else if i == 5 {} else if i == 6 {} else if i == 7 {} else if i == 8 {} else if i == 9 {} else if i == 10 {} else if i == 11 {} else if i == 12 {} else if i == 13 {} else if i == 14 {}
    }
    lemma_key_chars_fixed(k);
    lemma_table_shapes();
    assert(!table_shape(k));
    let t = tag_key_table();
    assert forall|i: int| 0 <= i < t.len() implies (#[trigger] t[i]).canonical_key != k && t[i].alias_key != Some(k) by {
        assert(table_shape(t[i].canonical_key));
    }
    lemma_mapped_unlisted(k, t);
}

proof fn lemma_key_fixed_sentence_type()
    ensures
        canonical_tag_key("sentence_type"@) == "sentence_type"@,
        "sentence_type"@.len() > 0,
        forall|i: int| 0 <= i < "sentence_type"@.len() ==> is_key_char(#[trigger] "sentence_type"@[i]),
{
    reveal_strlit("sentence_type");
    let k = "sentence_type"@;
    assert("sentence_type"@.len() == 13);
    assert("sentence_type"@[0] == 's');
    assert("sentence_type"@[1] == 'e');
    assert("sentence_type"@[11] == 'p');
    assert("sentence_type"@[12] == 'e');
    assert forall|i: int| 0 <= i < k.len() implies is_key_char(#[trigger] k[i]) by {
        if i == 0 {} else if i == 1 {} else if i == 2 {} else if i == 3 {} else if i == 4 {} else if i == 5 {} else if i == 6 {} else if i == 7 {} else if i == 8 {} else if i == 9 {} else if i == 10 {} else if i == 11 {} else if i == 12 {}
    }
    lemma_key_chars_fixed(k);
    lemma_table_shapes();
    assert(!table_shape(k));
    let t = tag_key_table();
    assert forall|i: int| 0 <= i < t.len() implies (#[trigger] t[i]).canonical_key != k && t[i].alias_key != Some(k) by {
        assert(table_shape(t[i].canonical_key));
    }
    lemma_mapped_unlisted(k, t);
}

proof fn lemma_key_fixed_sentence_arch()
    ensures
        canonical_tag_key("sentence_arch"@) == "sentence_arch"@,
        "sentence_arch"@.len() > 0,
        forall|i: int| 0 <= i < "sentence_arch"@.len() ==> is_key_char(#[trigger] "sentence_arch"@[i]),
{
    reveal_strlit("sentence_arch");
    let k = "sentence_arch"@;
    assert("sentence_arch"@.len() == 13);
    assert("sentence_arch"@[0] == 's');
    assert("sentence_arch"@[1] == 'e');
    assert("sentence_arch"@[11] == 'c');
    assert("sentence_arch"@[12] == 'h');
    assert forall|i: int| 0 <= i < k.len() implies is_key_char(#[trigger] k[i]) by {
        if i == 0 {} else if i == 1 {} else if i == 2 {} else if i == 3 {} else if i == 4 {} else if i == 5 {} else if i == 6 {} else if i == 7 {} else if i == 8 {} else if i == 9 {} else if i == 10 {} else if i == 11 {} else if i == 12 {}
    }
    lemma_key_chars_fixed(k);
    lemma_table_shapes();
    assert(!table_shape(k));
    let t = tag_key_table();
    assert forall|i: int| 0 <= i < t.len() implies (#[trigger] t[i]).canonical_key != k && t[i].alias_key != Some(k) by {
        assert(table_shape(t[i].canonical_key));
    }
    lemma_mapped_unlisted(k, t);
}

proof fn lemma_key_fixed_vocabulary()
    ensures
        canonical_tag_key("vocabulary"@) == "vocabulary"@,
        "vocabulary"@.len() > 0,
        forall|i: int| 0 <= i < "vocabulary"@.len() ==> is_key_char(#[trigger] "vocabulary"@[i]),
{
    reveal_strlit("vocabulary");
    let k = "vocabulary"@;
    assert("vocabulary"@.len() == 10);
    assert("vocabulary"@[0] == 'v');
    assert("vocabulary"@[1] == 'o');
    assert("vocabulary"@[8] == 'r');
    assert("vocabulary"@[9] == 'y');
    assert forall|i: int| 0 <= i < k.len() implies is_key_char(#[trigger] k[i]) by {
        if i == 0 {} else if i == 1 {} else if i == 2 {} else if i == 3 {} else if i == 4 {} else if i == 5 {} else if i == 6 {} else if i == 7 {} else if i == 8 {} else if i == 9 {}
    }
    lemma_key_chars_fixed(k);
    lemma_table_shapes();
    assert(!table_shape(k));
    let t = tag_key_table();
    assert forall|i: int| 0 <= i < t.len() implies (#[trigger] t[i]).canonical_key != k && t[i].alias_key != Some(k) by {
        assert(table_shape(t[i].canonical_key));
    }
    lemma_mapped_unlisted(k, t);
}

proof fn lemma_key_fixed_profanity()
    ensures
        canonical_tag_key("profanity"@) == "profanity"@,
        "profanity"@.len() > 0,
        forall|i: int| 0 <= i < "profanity"@.len() ==> is_key_char(#[trigger] "profanity"@[i]),
{
    reveal_strlit("profanity");
    let k = "profanity"@;
    assert("profanity"@.len() == 9);
    assert("profanity"@[0] == 'p');
    assert("profanity"@[1] == 'r');
    assert("profanity"@[7] == 't');
    assert("profanity"@[8] == 'y');
    assert forall|i: int| 0 <= i < k.len() implies is_key_char(#[trigger] k[i]) by {
        if i == 0 {} else if i == 1 {} else if i == 2 {} else if i == 3 {} else if i == 4 {} else if i == 5 {} else if i == 6 {} else if i == 7 {} else if i == 8 {}
    }
    lemma_key_chars_fixed(k);
    lemma_table_shapes();
    assert(!table_shape(k));
    let t = tag_key_table();
    assert forall|i: int| 0 <= i < t.len() implies (#[trigger] t[i]).canonical_key != k && t[i].alias_key != Some(k) by {
        assert(table_shape(t[i].canonical_key));
    }
    lemma_mapped_unlisted(k, t);
}

proof fn lemma_key_fixed_opening_type()
    ensures
        canonical_tag_key("opening_type"@) == "opening_type"@,
        "opening_type"@.len() > 0,
        forall|i: int| 0 <= i < "opening_type"@.len() ==> is_key_char(#[trigger] "opening_type"@[i]),
{
    reveal_strlit("opening_type");
    let k = "opening_type"@;
    assert("opening_type"@.len() == 12);
    assert("opening_type"@[0] == 'o');
    assert("opening_type"@[1] == 'p');
    assert("opening_type"@[10] == 'p');
    assert("opening_type"@[11] == 'e');
    assert forall|i: int| 0 <= i < k.len() implies is_key_char(#[trigger] k[i]) by {
        if i == 0 {} else if i == 1 {} else if i == 2 {} else if i == 3 {} else if i == 4 {} else if i == 5 {} else if i == 6 {} else if i == 7 {} else if i == 8 {} else if i == 9 {} else if i == 10 {} else if i == 11 {}
    }
    lemma_key_chars_fixed(k);
    lemma_table_shapes();
    assert(!table_shape(k));
    let t = tag_key_table();
    assert forall|i: int| 0 <= i < t.len() implies (#[trigger] t[i]).canonical_key != k && t[i].alias_key != Some(k) by {
        assert(table_shape(t[i].canonical_key));
    }
    lemma_mapped_unlisted(k, t);
}

proof fn lemma_key_fixed_question_delivery()
    ensures
        canonical_tag_key("question_delivery"@) == "question_delivery"@,
        "question_delivery"@.len() > 0,
        forall|i: int| 0 <= i < "question_delivery"@.len() ==> is_key_char(#[trigger] "question_delivery"@[i]),
{
    reveal_strlit("question_delivery");
    let k = "question_delivery"@;
    assert("question_delivery"@.len() == 17);
    assert("question_delivery"@[0] == 'q');
    assert("question_delivery"@[1] == 'u');
    assert("question_delivery"@[15] == 'r');
    assert("question_delivery"@[16] == 'y');
    assert forall|i: int| 0 <= i < k.len() implies is_key_char(#[trigger] k[i]) by {
        if i == 0 {} else if i == 1 {} else if i == 2 {} else if i == 3 {} else if i == 4 {} else if i == 5 {} else if i == 6 {} else if i == 7 {} else if i == 8 {} else if i == 9 {} else if i == 10 {} else if i == 11 {} else if i == 12 {} else if i == 13 {} else if i == 14 {} else if i == 15 {} else if i == 16 {}
    }
    lemma_key_chars_fixed(k);
    lemma_table_shapes();
    assert(!table_shape(k));
    let t = tag_key_table();
    assert forall|i: int| 0 <= i < t.len() implies (#[trigger] t[i]).canonical_key != k && t[i].alias_key != Some(k) by {
        assert(table_shape(t[i].canonical_key));
    }
    lemma_mapped_unlisted(k, t);
}

proof fn lemma_key_fixed_complexity()
    ensures
        canonical_tag_key("complexity"@) == "complexity"@,
        "complexity"@.len() > 0,
        forall|i: int| 0 <= i < "complexity"@.len() ==> is_key_char(#[trigger] "complexity"@[i]),
{
    reveal_strlit("complexity");
    let k = "complexity"@;
    assert("complexity"@.len() == 10);
    assert("complexity"@[0] == 'c');
    assert("complexity"@[1] == 'o');
    assert("complexity"@[8] == 't');
    assert("complexity"@[9] == 'y');
    assert forall|i: int| 0 <= i < k.len() implies is_key_char(#[trigger] k[i]) by {
        if i == 0 {} else if i == 1 {} else if i == 2 {} else if i == 3 {} else if i == 4 {} else if i == 5 {} else if i == 6 {} else if i == 7 {} else if i == 8 {} else if i == 9 {}
    }
    lemma_key_chars_fixed(k);
    lemma_table_shapes();
    assert(!table_shape(k));
    let t = tag_key_table();
    assert forall|i: int| 0 <= i < t.len() implies (#[trigger] t[i]).canonical_key != k && t[i].alias_key != Some(k) by {
        assert(table_shape(t[i].canonical_key));
    }
    lemma_mapped_unlisted(k, t);
}

proof fn lemma_key_fixed_displacement()
    ensures
        canonical_tag_key("displacement"@) == "displacement"@,
        "displacement"@.len() > 0,
        forall|i: int| 0 <= i < "displacement"@.len() ==> is_key_char(#[trigger] "displacement"@[i]),
{
    reveal_strlit("displacement");
    let k = "displacement"@;
    assert("displacement"@.len() == 12);
    assert("displacement"@[0] == 'd');
    assert("displacement"@[1] == 'i');
    assert("displacement"@[10] == 'n');
    assert("displacement"@[11] == 't');
    assert forall|i: int| 0 <= i < k.len() implies is_key_char(#[trigger] k[i]) by {
        if i == 0 {} else if i == 1 {} else if i == 2 {} else if i == 3 {} else if i == 4 {} else if i == 5 {} else if i == 6 {} else if i == 7 {} else if i == 8 {} else if i == 9 {} else if i == 10 {} else if i == 11 {}
    }
    lemma_key_chars_fixed(k);
    lemma_table_shapes();
    assert(!table_shape(k));
    let t = tag_key_table();
    assert forall|i: int| 0 <= i < t.len() implies (#[trigger] t[i]).canonical_key != k && t[i].alias_key != Some(k) by {
        assert(table_shape(t[i].canonical_key));
    }
    lemma_mapped_unlisted(k, t);
}

proof fn lemma_key_fixed_non_response()
    ensures
        canonical_tag_key("non_response"@) == "non_response"@,
        "non_response"@.len() > 0,
        forall|i: int| 0 <= i < "non_response"@.len() ==> is_key_char(#[trigger] "non_response"@[i]),
{
    reveal_strlit("non_response");
    let k = "non_response"@;
    assert("non_response"@.len() == 12);
    assert("non_response"@[0] == 'n');
    assert("non_response"@[1] == 'o');
    assert("non_response"@[10] == 's');
    assert("non_response"@[11] == 'e');
    assert forall|i: int| 0 <= i < k.len() implies is_key_char(#[trigger] k[i]) by {
        if i == 0 {} else if i == 1 {} else if i == 2 {} else if i == 3 {} else if i == 4 {} else if i == 5 {} else if i == 6 {} else if i == 7 {} else if i == 8 {} else if i == 9 {} else if i == 10 {} else if i == 11 {}
    }
    lemma_key_chars_fixed(k);
    lemma_table_shapes();
    assert(!table_shape(k));
    let t = tag_key_table();
    assert forall|i: int| 0 <= i < t.len() implies (#[trigger] t[i]).canonical_key != k && t[i].alias_key != Some(k) by {
        assert(table_shape(t[i].canonical_key));
    }
    lemma_mapped_unlisted(k, t);
}

/// Every key the outcome table reads is its own canonical form, non-empty
/// and made of key characters.
proof fn lemma_outcome_key_fixed(j: int)
    requires
        0 <= j < outcome_keys().len(),
    ensures
        canonical_tag_key(outcome_keys()[j]) == outcome_keys()[j],
        outcome_keys()[j].len() > 0,
        forall|i: int| 0 <= i < outcome_keys()[j].len() ==> is_key_char(#[trigger] outcome_keys()[j][i]),
{
    let t = outcome_keys();
    if j == 0 {
        assert(t[0] == "character"@);
        crate::ontology::lemma_canonical_fixed_character();
    } else if j == 1 {
        assert(t[1] == "setting"@);
        crate::ontology::lemma_canonical_fixed_setting();
    } else if j == 2 {
        assert(t[2] == "beat"@);
        crate::ontology::lemma_canonical_fixed_beat();
    } else if j == 3 {
        assert(t[3] == "thread"@);
        crate::ontology::lemma_canonical_fixed_thread();
    } else if j == 4 {
        assert(t[4] == "plot_type"@);
        crate::ontology::lemma_canonical_fixed_plot_type();
    } else if j == 5 {
        assert(t[5] == "collision_pattern"@);
        crate::ontology::lemma_canonical_fixed_collision_pattern();
    } else if j == 6 {
        assert(t[6] == "trope"@);
        crate::ontology::lemma_canonical_fixed_trope();
    } else if j == 7 {
        assert(t[7] == "diegetic_level"@);
        crate::ontology::lemma_canonical_fixed_diegetic_level();
    } else if j == 8 {
        assert(t[8] == "consciousness"@);
        crate::ontology::lemma_canonical_fixed_consciousness();
    } else if j == 9 {
        assert(t[9] == "speech_act"@);
        crate::ontology::lemma_canonical_fixed_speech_act();
    } else if j == 10 {
        assert(t[10] == "gaze"@);
        crate::ontology::lemma_canonical_fixed_gaze();
    } else if j == 11 {
        assert(t[11] == "pact"@);
        crate::ontology::lemma_canonical_fixed_pact();
    } else if j == 12 {
        assert(t[12] == "actant"@);
        crate::ontology::lemma_canonical_fixed_actant();
    } else if j == 13 {
        assert(t[13] == "psychic_distance"@);
        crate::ontology::lemma_canonical_fixed_psychic_distance();
    } else if j == 14 {
        assert(t[14] == "tension"@);
        crate::ontology::lemma_canonical_fixed_tension();
    } else if j == 15 {
        assert(t[15] == "subtext"@);
        crate::ontology::lemma_canonical_fixed_subtext();
    } else if j == 16 {
        assert(t[16] == "flag"@);
        crate::ontology::lemma_canonical_fixed_flag();
    } else if j == 17 {
        assert(t[17] == "motif"@);
        crate::ontology::lemma_canonical_fixed_motif();
    } else if j == 18 {
        assert(t[18] == "chapter"@);
        crate::ontology::lemma_canonical_fixed_chapter();
    } else if j == 19 {
        assert(t[19] == "speaker"@);
        lemma_key_fixed_speaker();
    } else if j == 20 {
        assert(t[20] == "tone"@);
        lemma_key_fixed_tone();
    } else if j == 21 {
        assert(t[21] == "ambience"@);
        lemma_key_fixed_ambience();
    } else if j == 22 {
        assert(t[22] == "music"@);
        lemma_key_fixed_music();
    } else if j == 23 {
        assert(t[23] == "sfx"@);
        lemma_key_fixed_sfx();
    } else if j == 24 {
        assert(t[24] == "delivery"@);
        lemma_key_fixed_delivery();
    } else if j == 25 {
        assert(t[25] == "paratext_zone"@);
        crate::ontology::lemma_canonical_fixed_paratext_zone();
    } else if j == 26 {
        assert(t[26] == "temporal_order"@);
        lemma_key_fixed_temporal_order();
    } else if j == 27 {
        assert(t[27] == "temporal_duration"@);
        lemma_key_fixed_temporal_duration();
    } else if j == 28 {
        assert(t[28] == "temporal_frequency"@);
        lemma_key_fixed_temporal_frequency();
    } else if j == 29 {
        assert(t[29] == "reader_effect"@);
        lemma_key_fixed_reader_effect();
    } else if j == 30 {
        assert(t[30] == "intertextual"@);
        lemma_key_fixed_intertextual();
    } else if j == 31 {
        assert(t[31] == "bloom_mode"@);
        lemma_key_fixed_bloom_mode();
    } else if j == 32 {
        assert(t[32] == "metaphor"@);
        lemma_key_fixed_metaphor();
    } else if j == 33 {
        assert(t[33] == "irony"@);
        lemma_key_fixed_irony();
    } else if j == 34 {
        assert(t[34] == "comic_mode"@);
        lemma_key_fixed_comic_mode();
    } else if j == 35 {
        assert(t[35] == "comedy_theory"@);
        lemma_key_fixed_comedy_theory();
    } else if j == 36 {
        assert(t[36] == "trauma_mode"@);
        lemma_key_fixed_trauma_mode();
    } else if j == 37 {
        assert(t[37] == "recovery_stage"@);
        lemma_key_fixed_recovery_stage();
    } else if j == 38 {
        assert(t[38] == "pentad_element"@);
        lemma_key_fixed_pentad_element();
    } else if j == 39 {
        assert(t[39] == "pentad_ratio"@);
        lemma_key_fixed_pentad_ratio();
    } else if j == 40 {
        assert(t[40] == "burke_form"@);
        lemma_key_fixed_burke_form();
    } else if j == 41 {
        assert(t[41] == "emplotment"@);
        lemma_key_fixed_emplotment();
    } else if j == 42 {
        assert(t[42] == "mimesis"@);
        lemma_key_fixed_mimesis();
    } else if j == 43 {
        assert(t[43] == "spatial_practice"@);
        lemma_key_fixed_spatial_practice();
    } else if j == 44 {
        assert(t[44] == "ethics"@);
        lemma_key_fixed_ethics();
    } else if j == 45 {
        assert(t[45] == "cultural_structure"@);
        lemma_key_fixed_cultural_structure();
    } else if j == 46 {
        assert(t[46] == "survivrance"@);
        lemma_key_fixed_survivrance();
    } else if j == 47 {
        assert(t[47] == "queer_time"@);
        lemma_key_fixed_queer_time();
    } else if j == 48 {
        assert(t[48] == "disability_rep"@);
        lemma_key_fixed_disability_rep();
    } else if j == 49 {
        assert(t[49] == "affect"@);
        lemma_key_fixed_affect();
    } else if j == 50 {
        assert(t[50] == "transitivity"@);
        lemma_key_fixed_transitivity();
    } else if j == 51 {
        assert(t[51] == "jakobson"@);
        lemma_key_fixed_jakobson();
    } else if j == 52 {
        assert(t[52] == "sign_type"@);
        lemma_key_fixed_sign_type();
    } else if j == 53 {
        assert(t[53] == "ya_narrator"@);
        lemma_key_fixed_ya_narrator();
    } else if j == 54 {
        assert(t[54] == "revision_pass"@);
        lemma_key_fixed_revision_pass();
    } else if j == 55 {
        assert(t[55] == "serial_arc"@);
        lemma_key_fixed_serial_arc();
    } else if j == 56 {
        assert(t[56] == "freudian"@);
        lemma_key_fixed_freudian();
    } else if j == 57 {
        assert(t[57] == "lacan_register"@);
        lemma_key_fixed_lacan_register();
    } else if j == 58 {
        assert(t[58] == "abject"@);
        lemma_key_fixed_abject();
    } else if j == 59 {
        assert(t[59] == "postcolonial"@);
        lemma_key_fixed_postcolonial();
    } else if j == 60 {
        assert(t[60] == "ecocritical"@);
        lemma_key_fixed_ecocritical();
    } else if j == 61 {
        assert(t[61] == "image_schema"@);
        lemma_key_fixed_image_schema();
    } else if j == 62 {
        assert(t[62] == "defamiliarize"@);
        lemma_key_fixed_defamiliarize();
    } else if j == 63 {
        assert(t[63] == "semiotic_pos"@);
        lemma_key_fixed_semiotic_pos();
    } else if j == 64 {
        assert(t[64] == "experimental"@);
        lemma_key_fixed_experimental();
    } else if j == 65 {
        assert(t[65] == "posthuman"@);
        lemma_key_fixed_posthuman();
    } else if j == 66 {
        assert(t[66] == "marxist_mode"@);
        lemma_key_fixed_marxist_mode();
    } else if j == 67 {
        assert(t[67] == "feminist"@);
        lemma_key_fixed_feminist();
    } else if j == 68 {
        assert(t[68] == "signifying"@);
        lemma_key_fixed_signifying();
    } else if j == 69 {
        assert(t[69] == "cognitive"@);
        lemma_key_fixed_cognitive();
    } else if j == 70 {
        assert(t[70] == "prosodic"@);
        lemma_key_fixed_prosodic();
    } else if j == 71 {
        assert(t[71] == "propp"@);
        lemma_key_fixed_propp();
    } else if j == 72 {
        assert(t[72] == "performativity"@);
        lemma_key_fixed_performativity();
    } else if j == 73 {
        assert(t[73] == "autofiction"@);
        lemma_key_fixed_autofiction();
    } else if j == 74 {
        assert(t[74] == "narrative_ethics"@);
        lemma_key_fixed_narrative_ethics();
    } else if j == 75 {
        assert(t[75] == "transmedia"@);
        lemma_key_fixed_transmedia();
    } else if j == 76 {
        assert(t[76] == "accessibility"@);
        lemma_key_fixed_accessibility();
    } else if j == 77 {
        assert(t[77] == "adaptation"@);
        lemma_key_fixed_adaptation();
    } else if j == 78 {
        assert(t[78] == "gricean"@);
        lemma_key_fixed_gricean();
    } else if j == 79 {
        assert(t[79] == "intimate_space"@);
        lemma_key_fixed_intimate_space();
    } else if j == 80 {
        assert(t[80] == "multilingual"@);
        lemma_key_fixed_multilingual();
    } else if j == 81 {
        assert(t[81] == "panel_transition"@);
        lemma_key_fixed_panel_transition();
    } else if j == 82 {
        assert(t[82] == "storywork"@);
        lemma_key_fixed_storywork();
    } else if j == 83 {
        assert(t[83] == "translation"@);
        lemma_key_fixed_translation();
    } else if j == 84 {
        assert(t[84] == "visual_verbal"@);
        lemma_key_fixed_visual_verbal();
    } else if j == 85 {
        assert(t[85] == "genre_reading"@);
        lemma_key_fixed_genre_reading();
    } else if j == 86 {
        assert(t[86] == "scene_function"@);
        lemma_key_fixed_scene_function();
    } else if j == 87 {
        assert(t[87] == "scene_type"@);
        lemma_key_fixed_scene_type();
    } else if j == 88 {
        assert(t[88] == "conflict"@);
        lemma_key_fixed_conflict();
    } else if j == 89 {
        assert(t[89] == "arc"@);
        lemma_key_fixed_arc();
    } else if j == 90 {
        assert(t[90] == "arc_pattern"@);
        lemma_key_fixed_arc_pattern();
    } else if j == 91 {
        assert(t[91] == "outcome"@);
        lemma_key_fixed_outcome();
    } else if j == 92 {
        assert(t[92] == "sense"@);
        lemma_key_fixed_sense();
    } else if j == 93 {
        assert(t[93] == "time_of_day"@);
        lemma_key_fixed_time_of_day();
    } else if j == 94 {
        assert(t[94] == "weather"@);
        lemma_key_fixed_weather();
    } else if j == 95 {
        assert(t[95] == "world_delivery"@);
        lemma_key_fixed_world_delivery();
    } else if j == 96 {
        assert(t[96] == "pov"@);
        lemma_key_fixed_pov();
    } else if j == 97 {
        assert(t[97] == "focalization_type"@);
        lemma_key_fixed_focalization_type();
    } else if j == 98 {
        assert(t[98] == "knowledge"@);
        lemma_key_fixed_knowledge();
    } else if j == 99 {
        assert(t[99] == "reliability"@);
        lemma_key_fixed_reliability();
    } else if j == 100 {
        assert(t[100] == "engagement"@);
        lemma_key_fixed_engagement();
    } else if j == 101 {
        assert(t[101] == "narrative_distance"@);
        lemma_key_fixed_narrative_distance();
    } else if j == 102 {
        assert(t[102] == "voice_structure"@);
        lemma_key_fixed_voice_structure();
    } else if j == 103 {
        assert(t[103] == "sentence_length"@);
        lemma_key_fixed_sentence_length();
    } else if j == 104 {
        assert(t[104] == "sentence_type"@);
        lemma_key_fixed_sentence_type();
    } else if j == 105 {
        assert(t[105] == "sentence_arch"@);
        lemma_key_fixed_sentence_arch();
    } else if j == 106 {
        assert(t[106] == "vocabulary"@);
        lemma_key_fixed_vocabulary();
    } else if j == 107 {
        assert(t[107] == "profanity"@);
        lemma_key_fixed_profanity();
    } else if j == 108 {
        assert(t[108] == "opening_type"@);
        lemma_key_fixed_opening_type();
    } else if j == 109 {
        assert(t[109] == "question_delivery"@);
        lemma_key_fixed_question_delivery();
    } else if j == 110 {
        assert(t[110] == "complexity"@);
        lemma_key_fixed_complexity();
    } else if j == 111 {
        assert(t[111] == "displacement"@);
        lemma_key_fixed_displacement();
    } else if j == 112 {
        assert(t[112] == "non_response"@);
        lemma_key_fixed_non_response();
    } else if j == 113 {
        assert(t[113] == "drive_model"@);
        crate::ontology::lemma_canonical_fixed_drive_model();
    } else if j == 114 {
        assert(t[114] == "stage"@);
        crate::ontology::lemma_canonical_fixed_stage();
    }
}

/// The pair an annotation flattens to.
pub open spec fn lone_pair(a: AnnotationView) -> PairView {
    pair_of(a)->0
}

/// The comment `<!-- key:value -->` that writes one tag.
pub open spec fn rendered_comment(k: Seq<char>, v: Seq<char>) -> Seq<char> {
    "<!-- "@ + k + ":"@ + v + " -->"@
}

/// A value that a comment can carry unquoted: non-empty, not opening with a
/// quote, and free of whitespace.
pub open spec fn plain_value(v: Seq<char>) -> bool {
    v.len() > 0 && v[0] != '"' && forall|i: int| 0 <= i < v.len() ==> !is_white_space(#[trigger] v[i])
}

proof fn lemma_comment_body(k: Seq<char>, v: Seq<char>)
    requires
        k.len() > 0,
        forall|i: int| 0 <= i < k.len() ==> is_key_char(#[trigger] k[i]),
        plain_value(v),
    ensures
        comment_body(rendered_comment(k, v)) == k + ":"@ + v,
{
    reveal_strlit("<!-- ");
    reveal_strlit(" -->");
    reveal_strlit(":");
    let body = k + ":"@ + v;
    assert(is_key_char(k[0]));
    assert(!is_white_space(body[0]));
    assert(body.last() == v.last());
    assert(!is_white_space(v[v.len() - 1]));
    let tail = seq![' ', '-', '-', '>'];
    let raw = rendered_comment(k, v);
    assert(raw =~= seq!['<', '!', '-', '-', ' '] + body + tail);
    let x1 = seq!['!', '-', '-', ' '] + body + tail;
    assert(raw.drop_first() =~= x1);
    assert(strip_leading(x1, '<') == x1);
    assert(strip_leading(raw, '<') == x1);
    let x2 = seq!['-', '-', ' '] + body + tail;
    assert(x1.drop_first() =~= x2);
    assert(strip_leading(x2, '!') == x2);
    assert(strip_leading(x1, '!') == x2);
    let x3 = seq!['-', ' '] + body + tail;
    let x4 = seq![' '] + body + tail;
    assert(x2.drop_first() =~= x3);
    assert(x3.drop_first() =~= x4);
    assert(strip_leading(x4, '-') == x4);
    assert(strip_leading(x3, '-') == x4);
    assert(strip_leading(x2, '-') == x4);
    let y1 = seq![' '] + body + seq![' ', '-', '-'];
    let y2 = seq![' '] + body + seq![' ', '-'];
    let y3 = seq![' '] + body + seq![' '];
    assert(x4.drop_last() =~= y1);
    assert(strip_trailing(y1, '>') == y1);
    assert(strip_trailing(x4, '>') == y1);
    assert(y1.drop_last() =~= y2);
    assert(y2.drop_last() =~= y3);
    assert(strip_trailing(y3, '-') == y3);
    assert(strip_trailing(y2, '-') == y3);
    assert(strip_trailing(y1, '-') == y3);
    let z = body + seq![' '];
    assert(y3.drop_first() =~= z);
    assert(trim_start(z) == z);
    assert(trim_start(y3) == z);
    assert(z.drop_last() =~= body);
    assert(trim_end(body) == body);
    assert(trim_end(z) == body);
}

proof fn lemma_rendered_pairs(k: Seq<char>, v: Seq<char>)
    requires
        k.len() > 0,
        forall|i: int| 0 <= i < k.len() ==> is_key_char(#[trigger] k[i]),
        canonical_tag_key(k) == k,
        plain_value(v),
    ensures
        comment_pairs(rendered_comment(k, v)) == Some(seq![(k, v)]),
{
    reveal_strlit(":");
    lemma_comment_body(k, v);
    let body = k + ":"@ + v;
    assert(is_key_char(k[0]));
    assert(!is_white_space(body[0]));
    assert(body.last() == v.last());
    assert(!is_white_space(v[v.len() - 1]));
    assert(trim_start(body) == body);
    assert(trim_end(body) == body);
    assert(trim(body) == body);
    let c = k.len() as int;
    assert forall|j: int| 0 <= j < c implies body[j] != ':' by {
        assert(body[j] == k[j]);
        assert(is_key_char(k[j]));
    }
    assert(body[c] == ':');
    lemma_find_char_is(body, ':', c);
    assert(body.take(c) =~= k);
    lemma_key_chars_fixed(k);
    assert(body.skip(c + 1) =~= v);
    assert(trim_start(v) == v);
    lemma_find_white_space_is(v, v.len() as int);
    assert(v.skip(v.len() as int) =~= Seq::<char>::empty());
    assert(token_value(v) == Some((v, Seq::<char>::empty())));
    assert(trim_start(Seq::<char>::empty()) == Seq::<char>::empty());
    assert(scan_pairs(Seq::<char>::empty()) == Some(Seq::<PairView>::empty()));
    assert(seq![(k, v)] + Seq::<PairView>::empty() =~= seq![(k, v)]);
}

/// Lossless read-back of a written tag: the comment that writes the pair an
/// annotation flattens to, with an unquoted value, tokenizes to that one pair
/// and parses to exactly that annotation, with no warning.
pub proof fn lemma_rendered_comment_reads_exactly(a: AnnotationView)
    requires
        read_back(a),
        pair_of(a) is Some,
        plain_value(lone_pair(a).1),
    ensures
        comment_pairs(rendered_comment(lone_pair(a).0, lone_pair(a).1)) == Some(seq![pair_of(a)->0]),
        outcome_annotations(
            tag_outcomes(comment_pairs(rendered_comment(lone_pair(a).0, lone_pair(a).1))->0),
        ) == seq![a],
        outcome_warnings(
            tag_outcomes(comment_pairs(rendered_comment(lone_pair(a).0, lone_pair(a).1))->0),
        ) == Seq::<Seq<char>>::empty(),
{
    let p = pair_of(a)->0;
    let kv = seq![p];
    let os = tag_outcomes(kv);
    lemma_lookup_single(p.0, p.1, p.0);
    assert(kv == seq![(p.0, p.1)]);
    lemma_pair_read_back(kv, a);
    lemma_listed_at(os, a);
    let j = choose|j: int| 0 <= j < os.len() && os[j] == TagOutcome::Parsed(a);
    assert(os[j] == tag_outcome(kv, j));
    lemma_pair_key_not_stage(a);
    if p.0 != outcome_keys()[j] {
        lemma_unread_absent(p.0, p.1, j);
    }
    lemma_outcome_key_fixed(j);
    lemma_rendered_pairs(p.0, p.1);
    lemma_lone_pair_reads_exactly(a);
}

/// A lone pair read by entry `j` (not the `stage` entry) and parsed there to
/// `a` reads as exactly `a`, with no warning.
proof fn lemma_reads_only(k: Seq<char>, v: Seq<char>, j: int, a: AnnotationView)
    requires
        0 <= j < 114,
        k == outcome_keys()[j],
        tag_outcome(seq![(k, v)], j) == TagOutcome::Parsed(a),
    ensures
        outcome_annotations(tag_outcomes(seq![(k, v)])) == seq![a],
        outcome_warnings(tag_outcomes(seq![(k, v)])) == Seq::<Seq<char>>::empty(),
{
    let kv = seq![(k, v)];
    let os = tag_outcomes(kv);
    lemma_key_index(j);
    lemma_key_index(114);
    assert(outcome_keys()[114] == "stage"@);
    assert(k != "stage"@);
    assert(os[j] == tag_outcome(kv, j));
    assert forall|i: int| 0 <= i < os.len() && i != j implies (#[trigger] os[i]) is Absent by {
        lemma_key_index(i);
        assert(os[i] == tag_outcome(kv, i));
        lemma_unread_absent(k, v, i);
    }
    lemma_lone_outcome(os, j, a);
}

proof fn lemma_character_tag_reads_back(v: Seq<char>)
    ensures
        outcome_annotations(tag_outcomes(seq![("character"@, v)])) == seq![AnnotationView::Character(v)],
        outcome_warnings(tag_outcomes(seq![("character"@, v)])) == Seq::<Seq<char>>::empty(),
{
    lemma_lookup_single("character"@, v, "character"@);
    assert(outcome_keys()[0] == "character"@);
    lemma_reads_only("character"@, v, 0, AnnotationView::Character(v));
}

proof fn lemma_setting_tag_reads_back(v: Seq<char>)
    ensures
        outcome_annotations(tag_outcomes(seq![("setting"@, v)])) == seq![AnnotationView::Setting(v)],
        outcome_warnings(tag_outcomes(seq![("setting"@, v)])) == Seq::<Seq<char>>::empty(),
{
    lemma_lookup_single("setting"@, v, "setting"@);
    assert(outcome_keys()[1] == "setting"@);
    lemma_reads_only("setting"@, v, 1, AnnotationView::Setting(v));
}

proof fn lemma_beat_tag_reads_back(v: Seq<char>)
    ensures
        outcome_annotations(tag_outcomes(seq![("beat"@, v)])) == seq![AnnotationView::Beat(v)],
        outcome_warnings(tag_outcomes(seq![("beat"@, v)])) == Seq::<Seq<char>>::empty(),
{
    lemma_lookup_single("beat"@, v, "beat"@);
    assert(outcome_keys()[2] == "beat"@);
    lemma_reads_only("beat"@, v, 2, AnnotationView::Beat(v));
}

proof fn lemma_plot_type_tag_reads_back(v: Seq<char>)
    ensures
        outcome_annotations(tag_outcomes(seq![("plot_type"@, v)])) == seq![AnnotationView::PlotType(v)],
        outcome_warnings(tag_outcomes(seq![("plot_type"@, v)])) == Seq::<Seq<char>>::empty(),
{
    lemma_lookup_single("plot_type"@, v, "plot_type"@);
    assert(outcome_keys()[4] == "plot_type"@);
    lemma_reads_only("plot_type"@, v, 4, AnnotationView::PlotType(v));
}

proof fn lemma_collision_pattern_tag_reads_back(v: Seq<char>)
    ensures
        outcome_annotations(tag_outcomes(seq![("collision_pattern"@, v)])) == seq![AnnotationView::CollisionPattern(v)],
        outcome_warnings(tag_outcomes(seq![("collision_pattern"@, v)])) == Seq::<Seq<char>>::empty(),
{
    lemma_lookup_single("collision_pattern"@, v, "collision_pattern"@);
    assert(outcome_keys()[5] == "collision_pattern"@);
    lemma_reads_only("collision_pattern"@, v, 5, AnnotationView::CollisionPattern(v));
}

proof fn lemma_trope_tag_reads_back(v: Seq<char>)
    ensures
        outcome_annotations(tag_outcomes(seq![("trope"@, v)])) == seq![AnnotationView::Trope(v)],
        outcome_warnings(tag_outcomes(seq![("trope"@, v)])) == Seq::<Seq<char>>::empty(),
{
    lemma_lookup_single("trope"@, v, "trope"@);
    assert(outcome_keys()[6] == "trope"@);
    lemma_reads_only("trope"@, v, 6, AnnotationView::Trope(v));
}

proof fn lemma_subtext_tag_reads_back(v: Seq<char>)
    ensures
        outcome_annotations(tag_outcomes(seq![("subtext"@, v)])) == seq![AnnotationView::Subtext(v)],
        outcome_warnings(tag_outcomes(seq![("subtext"@, v)])) == Seq::<Seq<char>>::empty(),
{
    lemma_lookup_single("subtext"@, v, "subtext"@);
    assert(outcome_keys()[15] == "subtext"@);
    lemma_reads_only("subtext"@, v, 15, AnnotationView::Subtext(v));
}

proof fn lemma_speaker_tag_reads_back(v: Seq<char>)
    ensures
        outcome_annotations(tag_outcomes(seq![("speaker"@, v)])) == seq![AnnotationView::Speaker { name: v }],
        outcome_warnings(tag_outcomes(seq![("speaker"@, v)])) == Seq::<Seq<char>>::empty(),
{
    lemma_lookup_single("speaker"@, v, "speaker"@);
    assert(outcome_keys()[19] == "speaker"@);
    lemma_reads_only("speaker"@, v, 19, AnnotationView::Speaker { name: v });
}

proof fn lemma_ambience_tag_reads_back(v: Seq<char>)
    ensures
        outcome_annotations(tag_outcomes(seq![("ambience"@, v)])) == seq![AnnotationView::Ambience(v)],
        outcome_warnings(tag_outcomes(seq![("ambience"@, v)])) == Seq::<Seq<char>>::empty(),
{
    lemma_lookup_single("ambience"@, v, "ambience"@);
    assert(outcome_keys()[21] == "ambience"@);
    lemma_reads_only("ambience"@, v, 21, AnnotationView::Ambience(v));
}

proof fn lemma_music_tag_reads_back(v: Seq<char>)
    ensures
        outcome_annotations(tag_outcomes(seq![("music"@, v)])) == seq![AnnotationView::Music(v)],
        outcome_warnings(tag_outcomes(seq![("music"@, v)])) == Seq::<Seq<char>>::empty(),
{
    lemma_lookup_single("music"@, v, "music"@);
    assert(outcome_keys()[22] == "music"@);
    lemma_reads_only("music"@, v, 22, AnnotationView::Music(v));
}

proof fn lemma_sfx_tag_reads_back(v: Seq<char>)
    ensures
        outcome_annotations(tag_outcomes(seq![("sfx"@, v)])) == seq![AnnotationView::Sfx(v)],
        outcome_warnings(tag_outcomes(seq![("sfx"@, v)])) == Seq::<Seq<char>>::empty(),
{
    lemma_lookup_single("sfx"@, v, "sfx"@);
    assert(outcome_keys()[23] == "sfx"@);
    lemma_reads_only("sfx"@, v, 23, AnnotationView::Sfx(v));
}

proof fn lemma_delivery_tag_reads_back(v: Seq<char>)
    ensures
        outcome_annotations(tag_outcomes(seq![("delivery"@, v)])) == seq![AnnotationView::Delivery(v)],
        outcome_warnings(tag_outcomes(seq![("delivery"@, v)])) == Seq::<Seq<char>>::empty(),
{
    lemma_lookup_single("delivery"@, v, "delivery"@);
    assert(outcome_keys()[24] == "delivery"@);
    lemma_reads_only("delivery"@, v, 24, AnnotationView::Delivery(v));
}

proof fn lemma_motif_tag_reads_back(v: Seq<char>)
    ensures
        outcome_annotations(tag_outcomes(seq![("motif"@, v)])) == seq![AnnotationView::Motif { slug: v, stage: None }],
        outcome_warnings(tag_outcomes(seq![("motif"@, v)])) == Seq::<Seq<char>>::empty(),
{
    lemma_lookup_single("motif"@, v, "motif"@);
    lemma_lookup_single("motif"@, v, "stage"@);
    lemma_key_shapes();
    assert("motif"@ != "stage"@);
    assert(outcome_keys()[17] == "motif"@);
    lemma_reads_only("motif"@, v, 17, AnnotationView::Motif { slug: v, stage: None });
}

/// Each slug- or text-valued tag reads back as its own annotation: a comment
/// whose only pair is `key:value` gives exactly the annotation of that key
/// holding the value (a motif without a stage), and no warning.
pub proof fn lemma_text_tags_read_back(v: Seq<char>)
    ensures
        outcome_annotations(tag_outcomes(seq![("character"@, v)])) == seq![AnnotationView::Character(v)],
        outcome_warnings(tag_outcomes(seq![("character"@, v)])) == Seq::<Seq<char>>::empty(),
        outcome_annotations(tag_outcomes(seq![("setting"@, v)])) == seq![AnnotationView::Setting(v)],
        outcome_warnings(tag_outcomes(seq![("setting"@, v)])) == Seq::<Seq<char>>::empty(),
        outcome_annotations(tag_outcomes(seq![("beat"@, v)])) == seq![AnnotationView::Beat(v)],
        outcome_warnings(tag_outcomes(seq![("beat"@, v)])) == Seq::<Seq<char>>::empty(),
        outcome_annotations(tag_outcomes(seq![("plot_type"@, v)])) == seq![AnnotationView::PlotType(v)],
        outcome_warnings(tag_outcomes(seq![("plot_type"@, v)])) == Seq::<Seq<char>>::empty(),
        outcome_annotations(tag_outcomes(seq![("collision_pattern"@, v)])) == seq![AnnotationView::CollisionPattern(v)],
        outcome_warnings(tag_outcomes(seq![("collision_pattern"@, v)])) == Seq::<Seq<char>>::empty(),
        outcome_annotations(tag_outcomes(seq![("trope"@, v)])) == seq![AnnotationView::Trope(v)],
        outcome_warnings(tag_outcomes(seq![("trope"@, v)])) == Seq::<Seq<char>>::empty(),
        outcome_annotations(tag_outcomes(seq![("subtext"@, v)])) == seq![AnnotationView::Subtext(v)],
        outcome_warnings(tag_outcomes(seq![("subtext"@, v)])) == Seq::<Seq<char>>::empty(),
        outcome_annotations(tag_outcomes(seq![("speaker"@, v)])) == seq![AnnotationView::Speaker { name: v }],
        outcome_warnings(tag_outcomes(seq![("speaker"@, v)])) == Seq::<Seq<char>>::empty(),
        outcome_annotations(tag_outcomes(seq![("ambience"@, v)])) == seq![AnnotationView::Ambience(v)],
        outcome_warnings(tag_outcomes(seq![("ambience"@, v)])) == Seq::<Seq<char>>::empty(),
        outcome_annotations(tag_outcomes(seq![("music"@, v)])) == seq![AnnotationView::Music(v)],
        outcome_warnings(tag_outcomes(seq![("music"@, v)])) == Seq::<Seq<char>>::empty(),
        outcome_annotations(tag_outcomes(seq![("sfx"@, v)])) == seq![AnnotationView::Sfx(v)],
        outcome_warnings(tag_outcomes(seq![("sfx"@, v)])) == Seq::<Seq<char>>::empty(),
        outcome_annotations(tag_outcomes(seq![("delivery"@, v)])) == seq![AnnotationView::Delivery(v)],
        outcome_warnings(tag_outcomes(seq![("delivery"@, v)])) == Seq::<Seq<char>>::empty(),
        outcome_annotations(tag_outcomes(seq![("motif"@, v)])) == seq![AnnotationView::Motif { slug: v, stage: None }],
        outcome_warnings(tag_outcomes(seq![("motif"@, v)])) == Seq::<Seq<char>>::empty(),
{
    lemma_character_tag_reads_back(v);
    lemma_setting_tag_reads_back(v);
    lemma_beat_tag_reads_back(v);
    lemma_plot_type_tag_reads_back(v);
    lemma_collision_pattern_tag_reads_back(v);
    lemma_trope_tag_reads_back(v);
    lemma_subtext_tag_reads_back(v);
    lemma_speaker_tag_reads_back(v);
    lemma_ambience_tag_reads_back(v);
    lemma_music_tag_reads_back(v);
    lemma_sfx_tag_reads_back(v);
    lemma_delivery_tag_reads_back(v);
    lemma_motif_tag_reads_back(v);
}

/// A `chapter` tag alone gives exactly the chapter of that number, untitled,
/// and no warning.
pub proof fn lemma_chapter_tag_reads_back(n: u32)
    ensures
        outcome_annotations(tag_outcomes(seq![("chapter"@, decimal(n as nat))])) == seq![
            AnnotationView::Chapter { number: n, title: None },
        ],
        outcome_warnings(tag_outcomes(seq![("chapter"@, decimal(n as nat))])) == Seq::<Seq<char>>::empty(),
{
    let v = decimal(n as nat);
    lemma_lookup_single("chapter"@, v, "chapter"@);
    lemma_parse_decimal(n as nat, u32::MAX as nat);
    assert(outcome_keys()[18] == "chapter"@);
    lemma_reads_only("chapter"@, v, 18, AnnotationView::Chapter { number: n, title: None });
}

} // verus!
