//! The instruction set and the dialect alphabets: what each character
//! decodes to, how an instruction is rendered in each dialect, and the
//! laws of the symbol tables.
use vstd::prelude::*;

verus! {

/// One canonical instruction of the language.
#[derive(Clone, Copy, Debug, PartialEq, Eq, Structural)]
pub enum Command {
    IncP,
    DecP,
    IncB,
    DecB,
    Out,
    In,
    Begin,
    End,
}

/// The classic ASCII symbol of an instruction.
pub open spec fn classic_char(cmd: Command) -> char {
    match cmd {
        Command::IncP => '>',
        Command::DecP => '<',
        Command::IncB => '+',
        Command::DecB => '-',
        Command::Out => '.',
        Command::In => ',',
        Command::Begin => '[',
        Command::End => ']',
    }
}

/// The fixed symbol of an instruction in the hands dialect.
pub open spec fn hand_char(cmd: Command) -> char {
    match cmd {
        Command::IncB => '👆',
        Command::DecB => '👇',
        Command::IncP => '👉',
        Command::DecP => '👈',
        Command::In => '🤏',
        Command::Out => '🤌',
        Command::Begin => '🤜',
        Command::End => '🤛',
    }
}

/// Membership in the happy face emoji family.
pub open spec fn is_happy_face(c: char) -> bool {
    ||| c == '😀'
    ||| c == '😃'
    ||| c == '😄'
    ||| c == '😁'
    ||| c == '😆'
    ||| c == '😅'
    ||| c == '😂'
    ||| c == '🤣'
    ||| c == '🥲'
    ||| c == '😊'
    ||| c == '😇'
    ||| c == '🙂'
    ||| c == '🙃'
    ||| c == '😉'
    ||| c == '😌'
    ||| c == '😍'
    ||| c == '🥰'
    ||| c == '😘'
    ||| c == '😗'
    ||| c == '😙'
    ||| c == '😚'
    ||| c == '😋'
    ||| c == '😛'
    ||| c == '😝'
    ||| c == '😜'
    ||| c == '🤪'
}

/// Membership in the sad face emoji family.
pub open spec fn is_sad_face(c: char) -> bool {
    ||| c == '😞'
    ||| c == '😔'
    ||| c == '😟'
    ||| c == '😕'
    ||| c == '🙁'
    ||| c == '😣'
    ||| c == '😖'
    ||| c == '😫'
    ||| c == '😩'
    ||| c == '🥺'
    ||| c == '😢'
    ||| c == '😭'
    ||| c == '😤'
    ||| c == '😠'
    ||| c == '😡'
    ||| c == '🤬'
    ||| c == '🤯'
    ||| c == '🥵'
    ||| c == '🥶'
    ||| c == '😨'
    ||| c == '😰'
    ||| c == '😥'
    ||| c == '😓'
    ||| c == '🤢'
    ||| c == '🤮'
    ||| c == '🤒'
    ||| c == '🤕'
}

/// Membership in the carnivore emoji family.
pub open spec fn is_carnivore(c: char) -> bool {
    ||| c == '🐶'
    ||| c == '🐱'
    ||| c == '🦊'
    ||| c == '🐻'
    ||| c == '🐯'
    ||| c == '🦁'
    ||| c == '🐸'
    ||| c == '🐧'
    ||| c == '🦅'
    ||| c == '🦉'
    ||| c == '🐺'
    ||| c == '🕷'
    ||| c == '🦂'
    ||| c == '🐍'
    ||| c == '🦖'
    ||| c == '🐙'
    ||| c == '🦑'
    ||| c == '🐬'
    ||| c == '🐳'
    ||| c == '🐋'
    ||| c == '🦈'
    ||| c == '🐊'
    ||| c == '🐅'
    ||| c == '🐆'
    ||| c == '🐕'
    ||| c == '🐩'
    ||| c == '🦮'
    ||| c == '🦦'
    ||| c == '🦫'
}

/// Membership in the herbivore emoji family.
pub open spec fn is_herbivore(c: char) -> bool {
    ||| c == '🐭'
    ||| c == '🐹'
    ||| c == '🐰'
    ||| c == '🐼'
    ||| c == '🐨'
    ||| c == '🐮'
    ||| c == '🐷'
    ||| c == '🐽'
    ||| c == '🐵'
    ||| c == '🙈'
    ||| c == '🙉'
    ||| c == '🙊'
    ||| c == '🐒'
    ||| c == '🐦'
    ||| c == '🐗'
    ||| c == '🐴'
    ||| c == '🦄'
    ||| c == '🐛'
    ||| c == '🦋'
    ||| c == '🐌'
    ||| c == '🦕'
    ||| c == '🦓'
    ||| c == '🦍'
    ||| c == '🦧'
    ||| c == '🦣'
    ||| c == '🐘'
    ||| c == '🦛'
    ||| c == '🦏'
    ||| c == '🐪'
    ||| c == '🐫'
    ||| c == '🦒'
    ||| c == '🦘'
    ||| c == '🦬'
    ||| c == '🐃'
    ||| c == '🐂'
    ||| c == '🐄'
    ||| c == '🐎'
    ||| c == '🐖'
    ||| c == '🐏'
    ||| c == '🐑'
    ||| c == '🦙'
    ||| c == '🐐'
    ||| c == '🦌'
    ||| c == '🦜'
    ||| c == '🕊'
    ||| c == '🐇'
    ||| c == '🦥'
    ||| c == '🐁'
    ||| c == '🐀'
    ||| c == '🐿'
}

/// Membership in the woman emoji family.
pub open spec fn is_woman(c: char) -> bool {
    ||| c == '👧'
    ||| c == '👩'
    ||| c == '👵'
    ||| c == '🧕'
    ||| c == '👸'
    ||| c == '🤶'
    ||| c == '🤰'
    ||| c == '💃'
}

/// Membership in the man emoji family.
pub open spec fn is_man(c: char) -> bool {
    ||| c == '👦'
    ||| c == '👨'
    ||| c == '👴'
    ||| c == '👲'
    ||| c == '🕺'
}

/// Membership in the heart emoji family.
pub open spec fn is_heart(c: char) -> bool {
    ||| c == '🧡'
    ||| c == '💛'
    ||| c == '💚'
    ||| c == '💙'
    ||| c == '💜'
    ||| c == '🖤'
    ||| c == '🤍'
    ||| c == '🤎'
    ||| c == '💔'
    ||| c == '💕'
    ||| c == '💞'
    ||| c == '💓'
    ||| c == '💗'
    ||| c == '💖'
    ||| c == '💘'
    ||| c == '💝'
    ||| c == '💟'
    ||| c == '🫀'
}

/// Membership in the hat emoji family.
pub open spec fn is_hat(c: char) -> bool {
    ||| c == '👑'
    ||| c == '👒'
    ||| c == '🎩'
    ||| c == '🎓'
    ||| c == '🧢'
    ||| c == '⛑'
    ||| c == '🪖'
}

/// Membership in the themed emoji family of an instruction.
pub open spec fn family_char(cmd: Command, c: char) -> bool {
    match cmd {
        Command::IncP => is_happy_face(c),
        Command::DecP => is_sad_face(c),
        Command::In => is_carnivore(c),
        Command::Out => is_herbivore(c),
        Command::Begin => is_woman(c),
        Command::End => is_man(c),
        Command::IncB => is_heart(c),
        Command::DecB => is_hat(c),
    }
}

/// The standalone glyphs accepted beside the emoji families.
pub open spec fn extra_char(cmd: Command) -> Option<char> {
    match cmd {
        Command::Begin => Some('♀'),
        Command::End => Some('♂'),
        Command::IncB => Some('❤'),
        _ => None,
    }
}

/// Whether `c` decodes to `cmd`, over the union of every dialect.
pub open spec fn decodes_to(cmd: Command, c: char) -> bool {
    ||| c == classic_char(cmd)
    ||| c == hand_char(cmd)
    ||| family_char(cmd, c)
    ||| extra_char(cmd) == Some(c)
}

/// The instruction a source character decodes to; `None` means the
/// character is a comment and is dropped.
pub open spec fn spec_from_char(c: char) -> Option<Command> {
    if decodes_to(Command::IncP, c) {
        Some(Command::IncP)
    } else if decodes_to(Command::DecP, c) {
        Some(Command::DecP)
    } else if decodes_to(Command::IncB, c) {
        Some(Command::IncB)
    } else if decodes_to(Command::DecB, c) {
        Some(Command::DecB)
    } else if decodes_to(Command::Out, c) {
        Some(Command::Out)
    } else if decodes_to(Command::In, c) {
        Some(Command::In)
    } else if decodes_to(Command::Begin, c) {
        Some(Command::Begin)
    } else if decodes_to(Command::End, c) {
        Some(Command::End)
    } else {
        None
    }
}

/// No character decodes to two distinct instructions: the eight decode
/// symbol sets are pairwise disjoint across the union of all dialects.
pub proof fn lemma_symbols_disjoint(a: Command, b: Command, c: char)
    requires
        a != b,
        decodes_to(a, c),
    ensures
        !decodes_to(b, c),
{
}

/// Exec test of `decodes_to`.
pub fn decodes(cmd: Command, c: char) -> (r: bool)
    ensures
        r == decodes_to(cmd, c),
{
    if c == cmd.as_char_classic() {
        return true;
    }
    if c == cmd.as_char_emoji_hand() {
        return true;
    }
    if family_contains(cmd, c) {
        return true;
    }
    match cmd {
        Command::Begin => c == '♀',
        Command::End => c == '♂',
        Command::IncB => c == '❤',
        _ => false,
    }
}

/// Exec test of membership in an instruction's emoji family.
fn family_contains(cmd: Command, c: char) -> (r: bool)
    ensures
        r == family_char(cmd, c),
{
    match cmd {
        Command::IncP => c == '😀'
            || c == '😃'
            || c == '😄'
            || c == '😁'
            || c == '😆'
            || c == '😅'
            || c == '😂'
            || c == '🤣'
            || c == '🥲'
            || c == '😊'
            || c == '😇'
            || c == '🙂'
            || c == '🙃'
            || c == '😉'
            || c == '😌'
            || c == '😍'
            || c == '🥰'
            || c == '😘'
            || c == '😗'
            || c == '😙'
            || c == '😚'
            || c == '😋'
            || c == '😛'
            || c == '😝'
            || c == '😜'
            || c == '🤪',
        Command::DecP => c == '😞'
            || c == '😔'
            || c == '😟'
            || c == '😕'
            || c == '🙁'
            || c == '😣'
            || c == '😖'
            || c == '😫'
            || c == '😩'
            || c == '🥺'
            || c == '😢'
            || c == '😭'
            || c == '😤'
            || c == '😠'
            || c == '😡'
            || c == '🤬'
            || c == '🤯'
            || c == '🥵'
            || c == '🥶'
            || c == '😨'
            || c == '😰'
            || c == '😥'
            || c == '😓'
            || c == '🤢'
            || c == '🤮'
            || c == '🤒'
            || c == '🤕',
        Command::In => c == '🐶'
            || c == '🐱'
            || c == '🦊'
            || c == '🐻'
            || c == '🐯'
            || c == '🦁'
            || c == '🐸'
            || c == '🐧'
            || c == '🦅'
            || c == '🦉'
            || c == '🐺'
            || c == '🕷'
            || c == '🦂'
            || c == '🐍'
            || c == '🦖'
            || c == '🐙'
            || c == '🦑'
            || c == '🐬'
            || c == '🐳'
            || c == '🐋'
            || c == '🦈'
            || c == '🐊'
            || c == '🐅'
            || c == '🐆'
            || c == '🐕'
            || c == '🐩'
            || c == '🦮'
            || c == '🦦'
            || c == '🦫',
        Command::Out => c == '🐭'
            || c == '🐹'
            || c == '🐰'
            || c == '🐼'
            || c == '🐨'
            || c == '🐮'
            || c == '🐷'
            || c == '🐽'
            || c == '🐵'
            || c == '🙈'
            || c == '🙉'
            || c == '🙊'
            || c == '🐒'
            || c == '🐦'
            || c == '🐗'
            || c == '🐴'
            || c == '🦄'
            || c == '🐛'
            || c == '🦋'
            || c == '🐌'
            || c == '🦕'
            || c == '🦓'
            || c == '🦍'
            || c == '🦧'
            || c == '🦣'
            || c == '🐘'
            || c == '🦛'
            || c == '🦏'
            || c == '🐪'
            || c == '🐫'
            || c == '🦒'
            || c == '🦘'
            || c == '🦬'
            || c == '🐃'
            || c == '🐂'
            || c == '🐄'
            || c == '🐎'
            || c == '🐖'
            || c == '🐏'
            || c == '🐑'
            || c == '🦙'
            || c == '🐐'
            || c == '🦌'
            || c == '🦜'
            || c == '🕊'
            || c == '🐇'
            || c == '🦥'
            || c == '🐁'
            || c == '🐀'
            || c == '🐿',
        Command::Begin => c == '👧'
            || c == '👩'
            || c == '👵'
            || c == '🧕'
            || c == '👸'
            || c == '🤶'
            || c == '🤰'
            || c == '💃',
        Command::End => c == '👦'
            || c == '👨'
            || c == '👴'
            || c == '👲'
            || c == '🕺',
        Command::IncB => c == '🧡'
            || c == '💛'
            || c == '💚'
            || c == '💙'
            || c == '💜'
            || c == '🖤'
            || c == '🤍'
            || c == '🤎'
            || c == '💔'
            || c == '💕'
            || c == '💞'
            || c == '💓'
            || c == '💗'
            || c == '💖'
            || c == '💘'
            || c == '💝'
            || c == '💟'
            || c == '🫀',
        Command::DecB => c == '👑'
            || c == '👒'
            || c == '🎩'
            || c == '🎓'
            || c == '🧢'
            || c == '⛑'
            || c == '🪖',
    }
}

impl Command {
    /// Decode one character, over every dialect at once.
    pub fn from_char(c: char) -> (r: Option<Command>)
        ensures
            r == spec_from_char(c),
    {
        if decodes(Command::IncP, c) {
            Some(Command::IncP)
        } else if decodes(Command::DecP, c) {
            Some(Command::DecP)
        } else if decodes(Command::IncB, c) {
            Some(Command::IncB)
        } else if decodes(Command::DecB, c) {
            Some(Command::DecB)
        } else if decodes(Command::Out, c) {
            Some(Command::Out)
        } else if decodes(Command::In, c) {
            Some(Command::In)
        } else if decodes(Command::Begin, c) {
            Some(Command::Begin)
        } else if decodes(Command::End, c) {
            Some(Command::End)
        } else {
            None
        }
    }

    /// Render this instruction in the classic dialect.
    pub fn as_char_classic(&self) -> (c: char)
        ensures
            c == classic_char(*self),
    {
        match self {
            Command::IncP => '>',
            Command::DecP => '<',
            Command::IncB => '+',
            Command::DecB => '-',
            Command::Out => '.',
            Command::In => ',',
            Command::Begin => '[',
            Command::End => ']',
        }
    }

    /// Render this instruction in the hands dialect.
    pub fn as_char_emoji_hand(&self) -> (c: char)
        ensures
            c == hand_char(*self),
    {
        match self {
            Command::IncB => '👆',
            Command::DecB => '👇',
            Command::IncP => '👉',
            Command::DecP => '👈',
            Command::In => '🤏',
            Command::Out => '🤌',
            Command::Begin => '🤜',
            Command::End => '🤛',
        }
    }
}

/// The happy face family as an ordered table, for rendering.
pub open spec fn happy_faces() -> Seq<char> {
    Seq::empty()
        .push('😀')
        .push('😃')
        .push('😄')
        .push('😁')
        .push('😆')
        .push('😅')
        .push('😂')
        .push('🤣')
        .push('🥲')
        .push('😊')
        .push('😇')
        .push('🙂')
        .push('🙃')
        .push('😉')
        .push('😌')
        .push('😍')
        .push('🥰')
        .push('😘')
        .push('😗')
        .push('😙')
        .push('😚')
        .push('😋')
        .push('😛')
        .push('😝')
        .push('😜')
        .push('🤪')
}

/// The sad face family as an ordered table, for rendering.
pub open spec fn sad_faces() -> Seq<char> {
    Seq::empty()
        .push('😞')
        .push('😔')
        .push('😟')
        .push('😕')
        .push('🙁')
        .push('😣')
        .push('😖')
        .push('😫')
        .push('😩')
        .push('🥺')
        .push('😢')
        .push('😭')
        .push('😤')
        .push('😠')
        .push('😡')
        .push('🤬')
        .push('🤯')
        .push('🥵')
        .push('🥶')
        .push('😨')
        .push('😰')
        .push('😥')
        .push('😓')
        .push('🤢')
        .push('🤮')
        .push('🤒')
        .push('🤕')
}

/// The carnivore family as an ordered table, for rendering.
pub open spec fn carnivores() -> Seq<char> {
    Seq::empty()
        .push('🐶')
        .push('🐱')
        .push('🦊')
        .push('🐻')
        .push('🐯')
        .push('🦁')
        .push('🐸')
        .push('🐧')
        .push('🦅')
        .push('🦉')
        .push('🐺')
        .push('🕷')
        .push('🦂')
        .push('🐍')
        .push('🦖')
        .push('🐙')
        .push('🦑')
        .push('🐬')
        .push('🐳')
        .push('🐋')
        .push('🦈')
        .push('🐊')
        .push('🐅')
        .push('🐆')
        .push('🐕')
        .push('🐩')
        .push('🦮')
        .push('🦦')
        .push('🦫')
}

/// The herbivore family as an ordered table, for rendering.
pub open spec fn herbivores() -> Seq<char> {
    Seq::empty()
        .push('🐭')
        .push('🐹')
        .push('🐰')
        .push('🐼')
        .push('🐨')
        .push('🐮')
        .push('🐷')
        .push('🐽')
        .push('🐵')
        .push('🙈')
        .push('🙉')
        .push('🙊')
        .push('🐒')
        .push('🐦')
        .push('🐗')
        .push('🐴')
        .push('🦄')
        .push('🐛')
        .push('🦋')
        .push('🐌')
        .push('🦕')
        .push('🦓')
        .push('🦍')
        .push('🦧')
        .push('🦣')
        .push('🐘')
        .push('🦛')
        .push('🦏')
        .push('🐪')
        .push('🐫')
        .push('🦒')
        .push('🦘')
        .push('🦬')
        .push('🐃')
        .push('🐂')
        .push('🐄')
        .push('🐎')
        .push('🐖')
        .push('🐏')
        .push('🐑')
        .push('🦙')
        .push('🐐')
        .push('🦌')
        .push('🦜')
        .push('🕊')
        .push('🐇')
        .push('🦥')
        .push('🐁')
        .push('🐀')
        .push('🐿')
}

/// The woman family as an ordered table, for rendering.
pub open spec fn women() -> Seq<char> {
    Seq::empty()
        .push('👧')
        .push('👩')
        .push('👵')
        .push('🧕')
        .push('👸')
        .push('🤶')
        .push('🤰')
        .push('💃')
}

/// The man family as an ordered table, for rendering.
pub open spec fn men() -> Seq<char> {
    Seq::empty()
        .push('👦')
        .push('👨')
        .push('👴')
        .push('👲')
        .push('🕺')
}

/// The heart family as an ordered table, for rendering.
pub open spec fn hearts() -> Seq<char> {
    Seq::empty()
        .push('🧡')
        .push('💛')
        .push('💚')
        .push('💙')
        .push('💜')
        .push('🖤')
        .push('🤍')
        .push('🤎')
        .push('💔')
        .push('💕')
        .push('💞')
        .push('💓')
        .push('💗')
        .push('💖')
        .push('💘')
        .push('💝')
        .push('💟')
        .push('🫀')
}

/// The hat family as an ordered table, for rendering.
pub open spec fn hats() -> Seq<char> {
    Seq::empty()
        .push('👑')
        .push('👒')
        .push('🎩')
        .push('🎓')
        .push('🧢')
        .push('⛑')
        .push('🪖')
}

/// The themed family of an instruction as an ordered table: the candidate
/// set of the randomized dialect.
pub open spec fn emoji_family(cmd: Command) -> Seq<char> {
    match cmd {
        Command::IncP => happy_faces(),
        Command::DecP => sad_faces(),
        Command::In => carnivores(),
        Command::Out => herbivores(),
        Command::Begin => women(),
        Command::End => men(),
        Command::IncB => hearts(),
        Command::DecB => hats(),
    }
}

/// Every character in an instruction's family table belongs to the family.
pub proof fn lemma_family_table_sound(cmd: Command)
    ensures
        forall|i: int|
            0 <= i < emoji_family(cmd).len() ==> family_char(cmd, #[trigger] emoji_family(cmd)[i]),
{
}

/// The family table is complete: every character of the family stands in it.
pub proof fn lemma_family_table_complete(cmd: Command)
    ensures
        forall|c: char| family_char(cmd, c) ==> emoji_family(cmd).contains(c),
{
    match cmd {
        Command::IncP => {
            assert(happy_faces()[0] == '😀');
            assert(happy_faces()[1] == '😃');
            assert(happy_faces()[2] == '😄');
            assert(happy_faces()[3] == '😁');
            assert(happy_faces()[4] == '😆');
            assert(happy_faces()[5] == '😅');
            assert(happy_faces()[6] == '😂');
            assert(happy_faces()[7] == '🤣');
            assert(happy_faces()[8] == '🥲');
            assert(happy_faces()[9] == '😊');
            assert(happy_faces()[10] == '😇');
            assert(happy_faces()[11] == '🙂');
            assert(happy_faces()[12] == '🙃');
            assert(happy_faces()[13] == '😉');
            assert(happy_faces()[14] == '😌');
            assert(happy_faces()[15] == '😍');
            assert(happy_faces()[16] == '🥰');
            assert(happy_faces()[17] == '😘');
            assert(happy_faces()[18] == '😗');
            assert(happy_faces()[19] == '😙');
            assert(happy_faces()[20] == '😚');
            assert(happy_faces()[21] == '😋');
            assert(happy_faces()[22] == '😛');
            assert(happy_faces()[23] == '😝');
            assert(happy_faces()[24] == '😜');
            assert(happy_faces()[25] == '🤪');
        },
        Command::DecP => {
            assert(sad_faces()[0] == '😞');
            assert(sad_faces()[1] == '😔');
            assert(sad_faces()[2] == '😟');
            assert(sad_faces()[3] == '😕');
            assert(sad_faces()[4] == '🙁');
            assert(sad_faces()[5] == '😣');
            assert(sad_faces()[6] == '😖');
            assert(sad_faces()[7] == '😫');
            assert(sad_faces()[8] == '😩');
            assert(sad_faces()[9] == '🥺');
            assert(sad_faces()[10] == '😢');
            assert(sad_faces()[11] == '😭');
            assert(sad_faces()[12] == '😤');
            assert(sad_faces()[13] == '😠');
            assert(sad_faces()[14] == '😡');
            assert(sad_faces()[15] == '🤬');
            assert(sad_faces()[16] == '🤯');
            assert(sad_faces()[17] == '🥵');
            assert(sad_faces()[18] == '🥶');
            assert(sad_faces()[19] == '😨');
            assert(sad_faces()[20] == '😰');
            assert(sad_faces()[21] == '😥');
            assert(sad_faces()[22] == '😓');
            assert(sad_faces()[23] == '🤢');
            assert(sad_faces()[24] == '🤮');
            assert(sad_faces()[25] == '🤒');
            assert(sad_faces()[26] == '🤕');
        },
        Command::In => {
            assert(carnivores()[0] == '🐶');
            assert(carnivores()[1] == '🐱');
            assert(carnivores()[2] == '🦊');
            assert(carnivores()[3] == '🐻');
            assert(carnivores()[4] == '🐯');
            assert(carnivores()[5] == '🦁');
            assert(carnivores()[6] == '🐸');
            assert(carnivores()[7] == '🐧');
            assert(carnivores()[8] == '🦅');
            assert(carnivores()[9] == '🦉');
            assert(carnivores()[10] == '🐺');
            assert(carnivores()[11] == '🕷');
            assert(carnivores()[12] == '🦂');
            assert(carnivores()[13] == '🐍');
            assert(carnivores()[14] == '🦖');
            assert(carnivores()[15] == '🐙');
            assert(carnivores()[16] == '🦑');
            assert(carnivores()[17] == '🐬');
            assert(carnivores()[18] == '🐳');
            assert(carnivores()[19] == '🐋');
            assert(carnivores()[20] == '🦈');
            assert(carnivores()[21] == '🐊');
            assert(carnivores()[22] == '🐅');
            assert(carnivores()[23] == '🐆');
            assert(carnivores()[24] == '🐕');
            assert(carnivores()[25] == '🐩');
            assert(carnivores()[26] == '🦮');
            assert(carnivores()[27] == '🦦');
            assert(carnivores()[28] == '🦫');
        },
        Command::Out => {
            assert(herbivores()[0] == '🐭');
            assert(herbivores()[1] == '🐹');
            assert(herbivores()[2] == '🐰');
            assert(herbivores()[3] == '🐼');
            assert(herbivores()[4] == '🐨');
            assert(herbivores()[5] == '🐮');
            assert(herbivores()[6] == '🐷');
            assert(herbivores()[7] == '🐽');
            assert(herbivores()[8] == '🐵');
            assert(herbivores()[9] == '🙈');
            assert(herbivores()[10] == '🙉');
            assert(herbivores()[11] == '🙊');
            assert(herbivores()[12] == '🐒');
            assert(herbivores()[13] == '🐦');
            assert(herbivores()[14] == '🐗');
            assert(herbivores()[15] == '🐴');
            assert(herbivores()[16] == '🦄');
            assert(herbivores()[17] == '🐛');
            assert(herbivores()[18] == '🦋');
            assert(herbivores()[19] == '🐌');
            assert(herbivores()[20] == '🦕');
            assert(herbivores()[21] == '🦓');
            assert(herbivores()[22] == '🦍');
            assert(herbivores()[23] == '🦧');
            assert(herbivores()[24] == '🦣');
            assert(herbivores()[25] == '🐘');
            assert(herbivores()[26] == '🦛');
            assert(herbivores()[27] == '🦏');
            assert(herbivores()[28] == '🐪');
            assert(herbivores()[29] == '🐫');
            assert(herbivores()[30] == '🦒');
            assert(herbivores()[31] == '🦘');
            assert(herbivores()[32] == '🦬');
            assert(herbivores()[33] == '🐃');
            assert(herbivores()[34] == '🐂');
            assert(herbivores()[35] == '🐄');
            assert(herbivores()[36] == '🐎');
            assert(herbivores()[37] == '🐖');
            assert(herbivores()[38] == '🐏');
            assert(herbivores()[39] == '🐑');
            assert(herbivores()[40] == '🦙');
            assert(herbivores()[41] == '🐐');
            assert(herbivores()[42] == '🦌');
            assert(herbivores()[43] == '🦜');
            assert(herbivores()[44] == '🕊');
            assert(herbivores()[45] == '🐇');
            assert(herbivores()[46] == '🦥');
            assert(herbivores()[47] == '🐁');
            assert(herbivores()[48] == '🐀');
            assert(herbivores()[49] == '🐿');
        },
        Command::Begin => {
            assert(women()[0] == '👧');
            assert(women()[1] == '👩');
            assert(women()[2] == '👵');
            assert(women()[3] == '🧕');
            assert(women()[4] == '👸');
            assert(women()[5] == '🤶');
            assert(women()[6] == '🤰');
            assert(women()[7] == '💃');
        },
        Command::End => {
            assert(men()[0] == '👦');
            assert(men()[1] == '👨');
            assert(men()[2] == '👴');
            assert(men()[3] == '👲');
            assert(men()[4] == '🕺');
        },
        Command::IncB => {
            assert(hearts()[0] == '🧡');
            assert(hearts()[1] == '💛');
            assert(hearts()[2] == '💚');
            assert(hearts()[3] == '💙');
            assert(hearts()[4] == '💜');
            assert(hearts()[5] == '🖤');
            assert(hearts()[6] == '🤍');
            assert(hearts()[7] == '🤎');
            assert(hearts()[8] == '💔');
            assert(hearts()[9] == '💕');
            assert(hearts()[10] == '💞');
            assert(hearts()[11] == '💓');
            assert(hearts()[12] == '💗');
            assert(hearts()[13] == '💖');
            assert(hearts()[14] == '💘');
            assert(hearts()[15] == '💝');
            assert(hearts()[16] == '💟');
            assert(hearts()[17] == '🫀');
        },
        Command::DecB => {
            assert(hats()[0] == '👑');
            assert(hats()[1] == '👒');
            assert(hats()[2] == '🎩');
            assert(hats()[3] == '🎓');
            assert(hats()[4] == '🧢');
            assert(hats()[5] == '⛑');
            assert(hats()[6] == '🪖');
        },
    }
}

/// The family table of an instruction, as a vector.
pub fn emoji_family_vec(cmd: Command) -> (v: Vec<char>)
    ensures
        v@ == emoji_family(cmd),
{
    let mut v: Vec<char> = Vec::new();
    match cmd {
        Command::IncP => {
            v.push('😀');
            v.push('😃');
            v.push('😄');
            v.push('😁');
            v.push('😆');
            v.push('😅');
            v.push('😂');
            v.push('🤣');
            v.push('🥲');
            v.push('😊');
            v.push('😇');
            v.push('🙂');
            v.push('🙃');
            v.push('😉');
            v.push('😌');
            v.push('😍');
            v.push('🥰');
            v.push('😘');
            v.push('😗');
            v.push('😙');
            v.push('😚');
            v.push('😋');
            v.push('😛');
            v.push('😝');
            v.push('😜');
            v.push('🤪');
        }
        Command::DecP => {
            v.push('😞');
            v.push('😔');
            v.push('😟');
            v.push('😕');
            v.push('🙁');
            v.push('😣');
            v.push('😖');
            v.push('😫');
            v.push('😩');
            v.push('🥺');
            v.push('😢');
            v.push('😭');
            v.push('😤');
            v.push('😠');
            v.push('😡');
            v.push('🤬');
            v.push('🤯');
            v.push('🥵');
            v.push('🥶');
            v.push('😨');
            v.push('😰');
            v.push('😥');
            v.push('😓');
            v.push('🤢');
            v.push('🤮');
            v.push('🤒');
            v.push('🤕');
        }
        Command::In => {
            v.push('🐶');
            v.push('🐱');
            v.push('🦊');
            v.push('🐻');
            v.push('🐯');
            v.push('🦁');
            v.push('🐸');
            v.push('🐧');
            v.push('🦅');
            v.push('🦉');
            v.push('🐺');
            v.push('🕷');
            v.push('🦂');
            v.push('🐍');
            v.push('🦖');
            v.push('🐙');
            v.push('🦑');
            v.push('🐬');
            v.push('🐳');
            v.push('🐋');
            v.push('🦈');
            v.push('🐊');
            v.push('🐅');
            v.push('🐆');
            v.push('🐕');
            v.push('🐩');
            v.push('🦮');
            v.push('🦦');
            v.push('🦫');
        }
        Command::Out => {
            v.push('🐭');
            v.push('🐹');
            v.push('🐰');
            v.push('🐼');
            v.push('🐨');
            v.push('🐮');
            v.push('🐷');
            v.push('🐽');
            v.push('🐵');
            v.push('🙈');
            v.push('🙉');
            v.push('🙊');
            v.push('🐒');
            v.push('🐦');
            v.push('🐗');
            v.push('🐴');
            v.push('🦄');
            v.push('🐛');
            v.push('🦋');
            v.push('🐌');
            v.push('🦕');
            v.push('🦓');
            v.push('🦍');
            v.push('🦧');
            v.push('🦣');
            v.push('🐘');
            v.push('🦛');
            v.push('🦏');
            v.push('🐪');
            v.push('🐫');
            v.push('🦒');
            v.push('🦘');
            v.push('🦬');
            v.push('🐃');
            v.push('🐂');
            v.push('🐄');
            v.push('🐎');
            v.push('🐖');
            v.push('🐏');
            v.push('🐑');
            v.push('🦙');
            v.push('🐐');
            v.push('🦌');
            v.push('🦜');
            v.push('🕊');
            v.push('🐇');
            v.push('🦥');
            v.push('🐁');
            v.push('🐀');
            v.push('🐿');
        }
        Command::Begin => {
            v.push('👧');
            v.push('👩');
            v.push('👵');
            v.push('🧕');
            v.push('👸');
            v.push('🤶');
            v.push('🤰');
            v.push('💃');
        }
        Command::End => {
            v.push('👦');
            v.push('👨');
            v.push('👴');
            v.push('👲');
            v.push('🕺');
        }
        Command::IncB => {
            v.push('🧡');
            v.push('💛');
            v.push('💚');
            v.push('💙');
            v.push('💜');
            v.push('🖤');
            v.push('🤍');
            v.push('🤎');
            v.push('💔');
            v.push('💕');
            v.push('💞');
            v.push('💓');
            v.push('💗');
            v.push('💖');
            v.push('💘');
            v.push('💝');
            v.push('💟');
            v.push('🫀');
        }
        Command::DecB => {
            v.push('👑');
            v.push('👒');
            v.push('🎩');
            v.push('🎓');
            v.push('🧢');
            v.push('⛑');
            v.push('🪖');
        }
    }
    v
}

/// Relies on rand::Rng::gen_range over rand::thread_rng(): a uniformly
/// drawn index below `n`; it panics only on an empty range, which the
/// precondition rules out.
#[verifier::external_body]
fn random_below(n: usize) -> (r: usize)
    requires
        0 < n,
    ensures
        r < n,
{
    rand::Rng::gen_range(&mut rand::thread_rng(), 0..n)
}

impl Command {
    /// Render this instruction in the randomized emoji dialect: a fresh
    /// uniform draw from the instruction's themed family on every call.
    /// Whatever is drawn decodes back to this same instruction.
    pub fn as_char_emoji_random(&self) -> (c: char)
        ensures
            family_char(*self, c),
            decodes_to(*self, c),
    {
        let fam = emoji_family_vec(*self);
        proof {
            lemma_family_table_sound(*self);
        }
        let i = random_below(fam.len());
        fam[i]
    }
}

/// The canonical program of a source text: characters decode in order,
/// and unrecognized characters are comments that leave no trace.
pub open spec fn decode(src: Seq<char>) -> Seq<Command>
    decreases src.len(),
{
    if src.len() == 0 {
        Seq::empty()
    } else {
        decode(src.drop_last()) + (match spec_from_char(src.last()) {
            Some(cmd) => seq![cmd],
            None => Seq::<Command>::empty(),
        })
    }
}

/// Classic rendering of a program: one fixed symbol per instruction.
pub open spec fn encode_classic(p: Seq<Command>) -> Seq<char> {
    Seq::new(p.len(), |i: int| classic_char(p[i]))
}

/// Hands rendering of a program: one fixed symbol per instruction.
pub open spec fn encode_hands(p: Seq<Command>) -> Seq<char> {
    Seq::new(p.len(), |i: int| hand_char(p[i]))
}

/// Decoding any accepted symbol of an instruction yields that instruction
/// back: the round trip through any dialect preserves the canonical kind.
pub proof fn lemma_round_trip(cmd: Command, c: char)
    requires
        decodes_to(cmd, c),
    ensures
        spec_from_char(c) == Some(cmd),
{
    if cmd != Command::IncP {
        lemma_symbols_disjoint(cmd, Command::IncP, c);
    }
    if cmd != Command::DecP {
        lemma_symbols_disjoint(cmd, Command::DecP, c);
    }
    if cmd != Command::IncB {
        lemma_symbols_disjoint(cmd, Command::IncB, c);
    }
    if cmd != Command::DecB {
        lemma_symbols_disjoint(cmd, Command::DecB, c);
    }
    if cmd != Command::Out {
        lemma_symbols_disjoint(cmd, Command::Out, c);
    }
    if cmd != Command::In {
        lemma_symbols_disjoint(cmd, Command::In, c);
    }
    if cmd != Command::Begin {
        lemma_symbols_disjoint(cmd, Command::Begin, c);
    }
    if cmd != Command::End {
        lemma_symbols_disjoint(cmd, Command::End, c);
    }
}

/// Any per-symbol transliteration of a program decodes back to the same
/// program, whichever dialect each single symbol was drawn from.
pub proof fn lemma_transliteration_round_trip(p: Seq<Command>, s: Seq<char>)
    requires
        s.len() == p.len(),
        forall|i: int| 0 <= i < p.len() ==> decodes_to(p[i], #[trigger] s[i]),
    ensures
        decode(s) == p,
    decreases p.len(),
{
    if p.len() == 0 {
        assert(decode(s) =~= p);
    } else {
        assert forall|i: int|
            0 <= i < p.drop_last().len() implies decodes_to(
            p.drop_last()[i],
            #[trigger] s.drop_last()[i],
        ) by {
            assert(s.drop_last()[i] == s[i]);
            assert(p.drop_last()[i] == p[i]);
        }
        lemma_transliteration_round_trip(p.drop_last(), s.drop_last());
        assert(decodes_to(p[p.len() - 1], s[s.len() - 1]));
        lemma_round_trip(p.last(), s.last());
        assert(decode(s) =~= p);
    }
}

/// The classic rendering of a program decodes back to it exactly.
pub proof fn lemma_decode_encode_classic(p: Seq<Command>)
    ensures
        decode(encode_classic(p)) == p,
{
    lemma_transliteration_round_trip(p, encode_classic(p));
}

/// The hands rendering of a program decodes back to it exactly.
pub proof fn lemma_decode_encode_hands(p: Seq<Command>)
    ensures
        decode(encode_hands(p)) == p,
{
    lemma_transliteration_round_trip(p, encode_hands(p));
}

/// Every symbol that decodes to `cmd`, over all dialects at once: the
/// classic character, the hands character, the emoji family, and the
/// standalone glyph where the instruction has one.
pub open spec fn all_symbols(cmd: Command) -> Seq<char> {
    seq![classic_char(cmd), hand_char(cmd)] + emoji_family(cmd) + (match extra_char(cmd) {
        Some(e) => seq![e],
        None => Seq::<char>::empty(),
    })
}

/// The full decode symbol table of an instruction, one entry per
/// accepted character.
pub fn decode_symbols(cmd: Command) -> (v: Vec<char>)
    ensures
        v@ == all_symbols(cmd),
{
    let mut v: Vec<char> = Vec::new();
    v.push(cmd.as_char_classic());
    v.push(cmd.as_char_emoji_hand());
    let mut fam = emoji_family_vec(cmd);
    v.append(&mut fam);
    match cmd {
        Command::Begin => v.push('♀'),
        Command::End => v.push('♂'),
        Command::IncB => v.push('❤'),
        _ => (),
    }
    proof {
        assert(v@ =~= all_symbols(cmd));
    }
    v
}

/// A character decodes to `cmd` exactly when it stands in the symbol
/// table `all_symbols(cmd)`.
pub proof fn lemma_all_symbols_iff(cmd: Command, c: char)
    ensures
        all_symbols(cmd).contains(c) <==> decodes_to(cmd, c),
{
    lemma_family_table_sound(cmd);
    lemma_family_table_complete(cmd);
    let tab = all_symbols(cmd);
    if tab.contains(c) {
        let i = choose|i: int| 0 <= i < tab.len() && tab[i] == c;
        if 2 <= i < 2 + emoji_family(cmd).len() {
            assert(emoji_family(cmd)[i - 2] == c);
        }
        assert(decodes_to(cmd, c));
    }
    if decodes_to(cmd, c) {
        if c == classic_char(cmd) {
            assert(tab[0] == c);
        } else if c == hand_char(cmd) {
            assert(tab[1] == c);
        } else if family_char(cmd, c) {
            let j = choose|j: int|
                0 <= j < emoji_family(cmd).len() && emoji_family(cmd)[j] == c;
            assert(tab[j + 2] == c);
        } else {
            assert(extra_char(cmd) == Some(c));
            assert(tab[tab.len() - 1] == c);
        }
        assert(tab.contains(c));
    }
}

} // verus!
