//! The one-line notation of a recipe.
//!
//! ```text
//! name|amount|unit|ingredient|amount|unit|ingredient#tag/tag
//! Sex On The Beach|2|cl|Vodka|8|cl|Orange juice#IBA/Experimental
//! ```

use std::collections::VecDeque;
use vstd::prelude::*;
use vstd::string::StringExecFns;
use crate::error::TypeError;
use crate::schema::UnitType;
use crate::schema::law_unit_name_round_trip;
use crate::text::{
    decimal,
    decimal_i64,
    integer_i32,
    is_digit,
    join,
    law_decimal_is_read_back,
    law_split_of_joined,
    lemma_join_lacks,
    parse_i32,
    split,
    split_deque,
    strings_of,
    texts,
};

verus! {

#[derive(Debug, Clone)]
pub struct StandardRecipeSyntax {
    pub name: String,
    pub parts: Vec<StandardRecipePart>,
    pub tags: Vec<String>,
}

#[derive(Debug, Clone)]
pub struct StandardRecipePart {
    pub amount: i32,
    pub unit: UnitType,
    pub incredient_name: String,
}

/// The mathematical value of a [`StandardRecipePart`].
pub ghost struct Part {
    pub amount: i32,
    pub unit: UnitType,
    pub name: Seq<char>,
}

/// The mathematical value of a [`StandardRecipeSyntax`].
pub ghost struct Recipe {
    pub name: Seq<char>,
    pub parts: Seq<Part>,
    pub tags: Seq<Seq<char>>,
}

impl View for StandardRecipePart {
    type V = Part;

    open spec fn view(&self) -> Part {
        Part { amount: self.amount, unit: self.unit, name: self.incredient_name@ }
    }
}

/// The values of a sequence of parts.
pub open spec fn part_views(parts: Seq<StandardRecipePart>) -> Seq<Part> {
    Seq::new(parts.len(), |i: int| parts[i]@)
}

impl View for StandardRecipeSyntax {
    type V = Recipe;

    open spec fn view(&self) -> Recipe {
        Recipe { name: self.name@, parts: part_views(self.parts@), tags: texts(self.tags@) }
    }
}

/// The parts that a sequence of fields stands for: each three fields are an
/// amount, a unit and a name. The first field that is no amount or no unit
/// where one is due is the error. One or two fields left over at the end are
/// read in the same way, and then dropped.
pub open spec fn parts_of(fields: Seq<Seq<char>>) -> Result<Seq<Part>, Seq<char>>
    decreases fields.len(),
{
    if fields.len() == 0 {
        Ok(Seq::empty())
    } else {
        match integer_i32(fields[0]) {
            None => Err("Invalid syntax; Invalid amount"@),
            Some(amount) => if fields.len() == 1 {
                Ok(Seq::empty())
            } else {
                match UnitType::named(fields[1]) {
                    None => Err("Invalid syntax; Invalid unit"@),
                    Some(unit) => if fields.len() == 2 {
                        Ok(Seq::empty())
                    } else {
                        match parts_of(fields.skip(3)) {
                            Ok(rest) => Ok(seq![Part { amount, unit, name: fields[2] }] + rest),
                            Err(e) => Err(e),
                        }
                    },
                }
            },
        }
    }
}

/// The recipe that a line stands for. What stands before the first `#` holds
/// the name and the parts, between bars; what stands between the first `#`
/// and the second holds the tags, between slashes. A line without a bar
/// before its first `#` is no recipe. A line without `#` has one tag, the
/// empty one.
pub open spec fn recipe_of(line: Seq<char>) -> Result<Recipe, Seq<char>> {
    let data = split(line, '#');
    let fields = split(data[0], '|');
    let tags = split(
        if data.len() > 1 {
            data[1]
        } else {
            Seq::empty()
        },
        '/',
    );
    if fields.len() <= 1 {
        Err("Invalid syntax"@)
    } else {
        match parts_of(fields.skip(1)) {
            Ok(parts) => Ok(Recipe { name: fields[0], parts, tags }),
            Err(e) => Err(e),
        }
    }
}

/// The notation of one part: a bar before each of amount, unit and name.
pub open spec fn part_line(part: Part) -> Seq<char> {
    "|"@ + decimal(part.amount as int) + "|"@ + part.unit.name() + "|"@ + part.name
}

/// The notation of a sequence of parts.
pub open spec fn parts_line(parts: Seq<Part>) -> Seq<char>
    decreases parts.len(),
{
    if parts.len() == 0 {
        Seq::empty()
    } else {
        parts_line(parts.drop_last()) + part_line(parts.last())
    }
}

/// The notation of a sequence of tags: nothing where there is none, else a
/// `#` and the tags with slashes between them.
pub open spec fn tags_line(tags: Seq<Seq<char>>) -> Seq<char> {
    if tags.len() == 0 {
        Seq::empty()
    } else {
        "#"@ + join(tags, "/"@)
    }
}

/// The line that stands for a recipe.
pub open spec fn line_of(recipe: Recipe) -> Seq<char> {
    recipe.name + parts_line(recipe.parts) + tags_line(recipe.tags)
}

/// What the parser returned, taken by its value.
pub open spec fn parse_view(outcome: Result<StandardRecipeSyntax, TypeError>) -> Result<
    Recipe,
    Seq<char>,
> {
    match outcome {
        Ok(recipe) => Ok(recipe@),
        Err(e) => Err(e@),
    }
}

impl StandardRecipeSyntax {
    /// Reads a recipe from its one-line notation.
    pub fn try_from(value: String) -> (outcome: Result<StandardRecipeSyntax, TypeError>)
        ensures
            parse_view(outcome) == recipe_of(value@),
    {
        let data: VecDeque<String> = split_deque(value.as_str(), '#');
        proof {
            crate::text::law_split_join(value@, '#');
            assert(texts(data@)[0] == data@[0]@);
        }
        let fields: VecDeque<String> = split_deque(data[0].as_str(), '|');
        let recipe_tags: VecDeque<String> = if data.len() > 1 {
            assert(texts(data@)[1] == data@[1]@);
            split_deque(data[1].as_str(), '/')
        } else {
            split_deque("", '/')
        };
        let tags = strings_of(&recipe_tags);
        proof {
            reveal_strlit("");
            assert(""@ =~= Seq::<char>::empty());
        }
        if fields.len() <= 1 {
            return Err(TypeError::new("Invalid syntax"));
        }
        let ghost all = texts(fields@).skip(1);
        let mut parts: Vec<StandardRecipePart> = Vec::new();
        let mut i: usize = 1;
        assert(all.skip(0) =~= all);
        assert(Seq::<Part>::empty() + parts_of(all)->Ok_0 =~= parts_of(all)->Ok_0);
        assert(texts(fields@)[0] == fields@[0]@);
        while i < fields.len()
            invariant
                1 <= i <= fields@.len(),
                all == texts(fields@).skip(1),
                recipe_of(value@) == match parts_of(all) {
                    Ok(found) => Ok::<Recipe, Seq<char>>(
                        Recipe { name: fields@[0]@, parts: found, tags: texts(tags@) },
                    ),
                    Err(e) => Err::<Recipe, Seq<char>>(e),
                },
                parts_of(all) == match parts_of(all.skip(i - 1)) {
                    Ok(rest) => Ok::<Seq<Part>, Seq<char>>(part_views(parts@) + rest),
                    Err(e) => Err::<Seq<Part>, Seq<char>>(e),
                },
            decreases fields@.len() - i,
        {
            let ghost rest = all.skip(i - 1);
            assert(rest.len() == fields@.len() - i);
            assert(rest[0] == fields@[i as int]@);
            let amount = match parse_i32(fields[i].as_str()) {
                Some(amount) => amount,
                None => {
                    return Err(TypeError::new("Invalid syntax; Invalid amount"));
                },
            };
            if i + 1 < fields.len() {
                assert(rest[1] == fields@[i + 1]@);
                let unit = match UnitType::from_text(Some(fields[i + 1].as_str())) {
                    Ok(unit) => unit,
                    Err(_) => {
                        return Err(TypeError::new("Invalid syntax; Invalid unit"));
                    },
                };
                if i + 2 < fields.len() {
                    assert(rest[2] == fields@[i + 2]@);
                    let ghost before = part_views(parts@);
                    let part = StandardRecipePart {
                        amount,
                        unit,
                        incredient_name: fields[i + 2].clone(),
                    };
                    parts.push(part);
                    proof {
                        assert(part_views(parts@) =~= before + seq![part@]);
                        assert(rest.skip(3) =~= all.skip(i + 2));
                        match parts_of(all.skip(i + 2)) {
                            Ok(tail) => {
                                assert(before + (seq![part@] + tail) =~= part_views(parts@)
                                    + tail);
                            },
                            Err(_) => {},
                        }
                    }
                    i = i + 3;
                } else {
                    i = fields.len();
                }
            } else {
                i = fields.len();
            }
            proof {
                if i == fields@.len() {
                    assert(all.skip(i - 1).len() == 0);
                }
            }
        }
        proof {
            assert(all.skip(i - 1).len() == 0);
            assert(part_views(parts@) + Seq::<Part>::empty() =~= part_views(parts@));
        }
        Ok(StandardRecipeSyntax { name: fields[0].clone(), parts, tags })
    }

    /// Writes the recipe in its one-line notation.
    pub fn into_string(self) -> (line: String)
        ensures
            line@ == line_of(self@),
    {
        let mut s = self.name;
        let mut i: usize = 0;
        assert(part_views(self.parts@).take(0) =~= Seq::<Part>::empty());
        assert(s@ + Seq::<char>::empty() =~= s@);
        while i < self.parts.len()
            invariant
                i <= self.parts@.len(),
                s@ == self.name@ + parts_line(part_views(self.parts@).take(i as int)),
            decreases self.parts@.len() - i,
        {
            let rp = &self.parts[i];
            let ghost before = s@;
            s.append("|");
            s.append(decimal_i64(rp.amount as i64).as_str());
            s.append("|");
            s.append(rp.unit.to_string().as_str());
            s.append("|");
            s.append(rp.incredient_name.as_str());
            proof {
                let upto = part_views(self.parts@).take(i + 1);
                assert(upto.drop_last() =~= part_views(self.parts@).take(i as int));
                assert(upto.last() == rp@);
                assert(s@ =~= before + part_line(rp@));
                assert(self.name@ + parts_line(upto) =~= before + part_line(rp@));
            }
            i = i + 1;
        }
        assert(part_views(self.parts@).take(self.parts@.len() as int) =~= part_views(
            self.parts@,
        ));
        let ghost head = s@;
        let mut j: usize = 0;
        while j < self.tags.len()
            invariant
                j <= self.tags@.len(),
                s@ == head + tags_line(texts(self.tags@).take(j as int)),
            decreases self.tags@.len() - j,
        {
            let ghost before = s@;
            let ghost upto = texts(self.tags@).take(j + 1);
            if j == 0 {
                s.append("#");
            } else {
                s.append("/");
            }
            s.append(self.tags[j].as_str());
            proof {
                assert(upto.drop_last() =~= texts(self.tags@).take(j as int));
                assert(upto.last() == self.tags@[j as int]@);
                if j == 0 {
                    assert(join(upto, "/"@) == upto[0]);
                    assert(s@ =~= head + tags_line(upto));
                } else {
                    assert(join(upto, "/"@) == join(upto.drop_last(), "/"@) + "/"@ + upto.last());
                    assert(s@ =~= head + tags_line(upto));
                }
            }
            j = j + 1;
        }
        proof {
            assert(texts(self.tags@).take(self.tags@.len() as int) =~= texts(self.tags@));
            assert(s@ =~= line_of(self@));
        }
        s
    }
}

/// The three fields that stand for a part.
pub open spec fn part_fields(part: Part) -> Seq<Seq<char>> {
    seq![decimal(part.amount as int), part.unit.name(), part.name]
}

/// The fields that stand for a sequence of parts.
pub open spec fn fields_of(parts: Seq<Part>) -> Seq<Seq<char>>
    decreases parts.len(),
{
    if parts.len() == 0 {
        Seq::empty()
    } else {
        fields_of(parts.drop_last()) + part_fields(parts.last())
    }
}

/// Whether a text can stand in a line as a name: it holds neither a bar nor a
/// hash.
pub open spec fn is_name(text: Seq<char>) -> bool {
    !text.contains('|') && !text.contains('#')
}

/// Whether a text can stand in a line as a tag: it holds neither a slash nor
/// a hash.
pub open spec fn is_tag(text: Seq<char>) -> bool {
    !text.contains('/') && !text.contains('#')
}

/// The fields of parts with plain names hold neither a bar nor a hash, and
/// there are three for each part.
proof fn lemma_fields_are_names(parts: Seq<Part>)
    requires
        forall|i: int| 0 <= i < parts.len() ==> is_name((#[trigger] parts[i]).name),
    ensures
        fields_of(parts).len() == 3 * parts.len(),
        forall|i: int| 0 <= i < fields_of(parts).len() ==> is_name(#[trigger] fields_of(parts)[i]),
    decreases parts.len(),
{
    if parts.len() > 0 {
        let front = parts.drop_last();
        assert forall|i: int| 0 <= i < front.len() implies is_name((#[trigger] front[i]).name) by {
            assert(front[i] == parts[i]);
        }
        lemma_fields_are_names(front);
        let last = parts.last();
        let amount = decimal(last.amount as int);
        law_decimal_is_read_back(last.amount as int);
        assert forall|j: int| 0 <= j < amount.len() implies amount[j] != '|' && amount[j]
            != '#' by {
            assert(is_digit(amount[j]) || amount[j] == '-');
        }
        assert(is_name(amount));
        let unit = last.unit.name();
        reveal_strlit("cl");
        reveal_strlit("ml");
        reveal_strlit("oz");
        reveal_strlit("kpl");
        reveal_strlit("tl");
        reveal_strlit("dash");
        assert forall|j: int| 0 <= j < unit.len() implies unit[j] != '|' && unit[j] != '#' by {}
        assert(is_name(unit));
        let all = fields_of(parts);
        assert forall|i: int| 0 <= i < all.len() implies is_name(#[trigger] all[i]) by {
            if i < fields_of(front).len() {
                assert(all[i] == fields_of(front)[i]);
            } else {
                assert(all[i] == part_fields(last)[i - fields_of(front).len()]);
            }
        }
    }
}

/// The fields of a sequence of parts start with the fields of the first
/// part.
proof fn lemma_fields_from_the_front(parts: Seq<Part>)
    requires
        parts.len() >= 1,
    ensures
        fields_of(parts) == part_fields(parts[0]) + fields_of(parts.skip(1)),
    decreases parts.len(),
{
    if parts.len() == 1 {
        assert(parts.drop_last() =~= Seq::<Part>::empty());
        assert(parts.skip(1) =~= Seq::<Part>::empty());
        assert(fields_of(parts) =~= part_fields(parts[0]) + fields_of(parts.skip(1)));
    } else {
        lemma_fields_from_the_front(parts.drop_last());
        assert(parts.drop_last().skip(1) =~= parts.skip(1).drop_last());
        assert(parts.skip(1).last() == parts.last());
        assert(parts.drop_last()[0] == parts[0]);
        assert(fields_of(parts) =~= part_fields(parts[0]) + fields_of(parts.skip(1)));
    }
}

/// The fields of parts are read back as the parts.
proof fn lemma_parts_are_read_back(parts: Seq<Part>)
    ensures
        parts_of(fields_of(parts)) == Ok::<Seq<Part>, Seq<char>>(parts),
    decreases parts.len(),
{
    if parts.len() == 0 {
        assert(parts =~= Seq::<Part>::empty());
    } else {
        lemma_fields_from_the_front(parts);
        lemma_parts_are_read_back(parts.skip(1));
        let first = parts[0];
        let fields = fields_of(parts);
        assert(fields.len() >= 3);
        assert(fields[0] == decimal(first.amount as int));
        assert(fields[1] == first.unit.name());
        assert(fields[2] == first.name);
        law_decimal_is_read_back(first.amount as int);
        law_unit_name_round_trip(first.unit);
        assert(fields.skip(3) =~= fields_of(parts.skip(1)));
        assert(seq![first] + parts.skip(1) =~= parts);
    }
}

/// The name and the parts of a line are its fields with bars between them.
proof fn lemma_head_is_joined(name: Seq<char>, parts: Seq<Part>)
    ensures
        name + parts_line(parts) == join(seq![name] + fields_of(parts), "|"@),
    decreases parts.len(),
{
    if parts.len() == 0 {
        assert(seq![name] + fields_of(parts) =~= seq![name]);
        assert(name + parts_line(parts) =~= name);
    } else {
        lemma_head_is_joined(name, parts.drop_last());
        let front = seq![name] + fields_of(parts.drop_last());
        let last = parts.last();
        let a = decimal(last.amount as int);
        let u = last.unit.name();
        let n = last.name;
        let all = seq![name] + fields_of(parts);
        assert(all =~= front.push(a).push(u).push(n));
        assert(front.push(a).push(u).push(n).drop_last() =~= front.push(a).push(u));
        assert(front.push(a).push(u).drop_last() =~= front.push(a));
        assert(front.push(a).drop_last() =~= front);
        assert(join(front.push(a), "|"@) == join(front, "|"@) + "|"@ + a);
        assert(join(front.push(a).push(u), "|"@) == join(front.push(a), "|"@) + "|"@ + u);
        assert(join(all, "|"@) == join(front.push(a).push(u), "|"@) + "|"@ + n);
        assert(name + parts_line(parts) =~= join(all, "|"@));
    }
}

/// A line that is written is read back as the recipe it was written from,
/// where the recipe has a part and a tag at least, its names hold neither a
/// bar nor a hash, and its tags neither a slash nor a hash.
pub proof fn law_line_is_read_back(recipe: Recipe)
    requires
        recipe.parts.len() >= 1,
        recipe.tags.len() >= 1,
        is_name(recipe.name),
        forall|i: int| 0 <= i < recipe.parts.len() ==> is_name((#[trigger] recipe.parts[i]).name),
        forall|i: int| 0 <= i < recipe.tags.len() ==> is_tag(#[trigger] recipe.tags[i]),
    ensures
        recipe_of(line_of(recipe)) == Ok::<Recipe, Seq<char>>(recipe),
{
    reveal_strlit("|");
    reveal_strlit("#");
    reveal_strlit("/");
    assert("|"@ =~= seq!['|']);
    assert("#"@ =~= seq!['#']);
    assert("/"@ =~= seq!['/']);
    let fields = seq![recipe.name] + fields_of(recipe.parts);
    let head = recipe.name + parts_line(recipe.parts);
    let tail = join(recipe.tags, "/"@);
    lemma_fields_are_names(recipe.parts);
    lemma_head_is_joined(recipe.name, recipe.parts);
    assert forall|i: int| 0 <= i < fields.len() implies is_name(#[trigger] fields[i]) by {
        if i > 0 {
            assert(fields[i] == fields_of(recipe.parts)[i - 1]);
        }
    }
    lemma_join_lacks(fields, "|"@, '#');
    lemma_join_lacks(recipe.tags, "/"@, '#');
    let data = seq![head, tail];
    assert(data.drop_last() =~= seq![head]);
    assert(seq![head].len() == 1 && seq![head][0] == head);
    assert(join(seq![head], "#"@) == head);
    assert(data.last() == tail);
    assert(join(data, "#"@) == join(data.drop_last(), "#"@) + "#"@ + data.last());
    assert(line_of(recipe) =~= join(data, seq!['#']));
    law_split_of_joined(data, '#');
    law_split_of_joined(fields, '|');
    law_split_of_joined(recipe.tags, '/');
    assert(fields.skip(1) =~= fields_of(recipe.parts));
    lemma_parts_are_read_back(recipe.parts);
}

} // verus!
