//! Rendering records as an RSS 2.0 feed.

use crate::text::{lemma_replaced_concat, one_line, replace_char};
use vstd::prelude::*;
use vstd::string::*;

verus! {

/// What a record must tell to become an item of a feed: six texts. The
/// trait is open to any record, and a feed takes the texts as they come.
pub trait Rss {
    /// The title of the item.
    fn get_title(&self) -> String;

    /// The address that the item links to.
    fn get_link(&self) -> String;

    /// The body of the item.
    fn get_description(&self) -> String;

    /// The identifier of the item.
    fn get_guid(&self) -> String;

    /// The author of the item.
    fn get_author(&self) -> String;

    /// The category of the item.
    fn get_category(&self) -> String;
}

/// The six texts of one item of a feed.
#[derive(Debug)]
pub struct RssItem {
    pub title: String,
    pub link: String,
    pub description: String,
    pub guid: String,
    pub author: String,
    pub category: String,
}

/// Mathematical value of an [`RssItem`].
pub ghost struct ItemModel {
    pub title: Seq<char>,
    pub link: Seq<char>,
    pub description: Seq<char>,
    pub guid: Seq<char>,
    pub author: Seq<char>,
    pub category: Seq<char>,
}

impl View for RssItem {
    type V = ItemModel;

    open spec fn view(&self) -> ItemModel {
        ItemModel {
            title: self.title@,
            link: self.link@,
            description: self.description@,
            guid: self.guid@,
            author: self.author@,
            category: self.category@,
        }
    }
}

/// The mathematical values of a run of items.
pub open spec fn items_view(items: Seq<RssItem>) -> Seq<ItemModel> {
    items.map_values(|item: RssItem| item@)
}

impl Rss for RssItem {
    fn get_title(&self) -> (text: String)
        ensures
            text@ == self.title@,
    {
        self.title.clone()
    }

    fn get_link(&self) -> (text: String)
        ensures
            text@ == self.link@,
    {
        self.link.clone()
    }

    fn get_description(&self) -> (text: String)
        ensures
            text@ == self.description@,
    {
        self.description.clone()
    }

    fn get_guid(&self) -> (text: String)
        ensures
            text@ == self.guid@,
    {
        self.guid.clone()
    }

    fn get_author(&self) -> (text: String)
        ensures
            text@ == self.author@,
    {
        self.author.clone()
    }

    fn get_category(&self) -> (text: String)
        ensures
            text@ == self.category@,
    {
        self.category.clone()
    }
}

/// What a feed says of itself.
pub struct RssChannelConfig<'a> {
    pub title: &'a str,
    pub link: &'a str,
    pub description: &'a str,
    pub language: Option<&'a str>,
}

/// The element `name` around `content`.
pub open spec fn element(name: Seq<char>, content: Seq<char>) -> Seq<char> {
    "<"@ + name + ">"@ + content + "</"@ + name + ">"@
}

/// `content` inside a CDATA section.
pub open spec fn cdata(content: Seq<char>) -> Seq<char> {
    "<![CDATA["@ + content + "]]>"@
}

/// The element of one item: title, link, description, identifier, author and
/// category, in this order, title and description in CDATA sections.
pub open spec fn item_xml(item: ItemModel) -> Seq<char> {
    "<item>"@ + element("title"@, cdata(item.title)) + element("link"@, item.link) + element(
        "description"@,
        cdata(item.description),
    ) + element("guid"@, item.guid) + element("author"@, item.author) + element(
        "category"@,
        item.category,
    ) + "</item>"@
}

/// The elements of a run of items, one after the other in the items' order.
pub open spec fn items_xml(items: Seq<ItemModel>) -> Seq<char>
    decreases items.len(),
{
    if items.len() == 0 {
        Seq::<char>::empty()
    } else {
        items_xml(items.drop_last()) + item_xml(items.last())
    }
}

/// The language element of a channel, nothing where no language is set.
pub open spec fn language_xml(language: Option<&str>) -> Seq<char> {
    match language {
        Some(code) => element("language"@, code@),
        None => Seq::<char>::empty(),
    }
}

/// The opening of a feed: the XML declaration, the start of `rss` and of
/// `channel`, then title, link and description of the channel and, where one
/// is set, its language.
pub open spec fn channel_head(config: RssChannelConfig) -> Seq<char> {
    "<?xml version=\"1.0\" encoding=\"UTF-8\"?><rss version=\"2.0\"><channel>"@ + element(
        "title"@,
        config.title@,
    ) + element("link"@, config.link@) + element("description"@, config.description@)
        + language_xml(config.language)
}

/// The feed of `items` under `config`: opening and items on one line, every
/// line feed in them dropped, then the end of `channel` and of `rss`.
pub open spec fn rss_document(config: RssChannelConfig, items: Seq<ItemModel>) -> Seq<char> {
    one_line(channel_head(config) + items_xml(items)) + "</channel></rss>"@
}

/// The elements of a run of items that is `a` followed by `b` are the
/// elements of `a` followed by the elements of `b`.
pub proof fn lemma_items_concat(a: Seq<ItemModel>, b: Seq<ItemModel>)
    ensures
        items_xml(a + b) == items_xml(a) + items_xml(b),
    decreases b.len(),
{
    if b.len() == 0 {
        assert(a + b =~= a);
        assert(items_xml(a) + items_xml(b) =~= items_xml(a));
    } else {
        assert((a + b).drop_last() =~= a + b.drop_last());
        assert((a + b).last() == b.last());
        lemma_items_concat(a, b.drop_last());
        assert((items_xml(a) + items_xml(b.drop_last())) + item_xml(b.last()) =~= items_xml(a) + (
        items_xml(b.drop_last()) + item_xml(b.last())));
    }
}

/// A feed holds one element for each item, in the items' order: the element
/// of item `i` stands after the elements of the items before it and before
/// those of the items after it.
pub proof fn lemma_item_in_place(config: RssChannelConfig, items: Seq<ItemModel>, i: int)
    requires
        0 <= i < items.len(),
    ensures
        rss_document(config, items) == one_line(channel_head(config)) + one_line(
            items_xml(items.take(i)),
        ) + one_line(item_xml(items[i])) + one_line(items_xml(items.skip(i + 1)))
            + "</channel></rss>"@,
{
    let before = items.take(i);
    let one = seq![items[i]];
    let after = items.skip(i + 1);
    let nl = '\n';
    let none = Seq::<char>::empty();
    assert(items =~= (before + one) + after);
    lemma_items_concat(before + one, after);
    lemma_items_concat(before, one);
    assert(one.drop_last() =~= Seq::<ItemModel>::empty());
    assert(items_xml(one.drop_last()) =~= Seq::<char>::empty());
    assert(one.last() == items[i]);
    assert(items_xml(one) =~= item_xml(items[i]));
    let head = channel_head(config);
    assert(head + items_xml(items) =~= ((head + items_xml(before)) + item_xml(items[i]))
        + items_xml(after));
    lemma_replaced_concat((head + items_xml(before)) + item_xml(items[i]), items_xml(after), nl, none);
    lemma_replaced_concat(head + items_xml(before), item_xml(items[i]), nl, none);
    lemma_replaced_concat(head, items_xml(before), nl, none);
}

/// Writes the element `name` around `content`.
pub fn element_text(name: &str, content: &str) -> (text: String)
    ensures
        text@ == element(name@, content@),
{
    let mut text = String::from_str("<");
    text.append(name);
    text.append(">");
    text.append(content);
    text.append("</");
    text.append(name);
    text.append(">");
    text
}

/// Writes `content` inside a CDATA section.
pub fn cdata_text(content: &str) -> (text: String)
    ensures
        text@ == cdata(content@),
{
    let mut text = String::from_str("<![CDATA[");
    text.append(content);
    text.append("]]>");
    text
}

/// Writes the element of one item.
pub fn item_text(item: &RssItem) -> (text: String)
    ensures
        text@ == item_xml(item@),
{
    let title = cdata_text(item.title.as_str());
    let description = cdata_text(item.description.as_str());
    let mut text = String::from_str("<item>");
    text.append(element_text("title", title.as_str()).as_str());
    text.append(element_text("link", item.link.as_str()).as_str());
    text.append(element_text("description", description.as_str()).as_str());
    text.append(element_text("guid", item.guid.as_str()).as_str());
    text.append(element_text("author", item.author.as_str()).as_str());
    text.append(element_text("category", item.category.as_str()).as_str());
    text.append("</item>");
    text
}

/// Renders `items` as an RSS 2.0 document under the channel that `config`
/// describes. The elements stand in the order of `items`.
pub fn render(config: &RssChannelConfig, items: &Vec<RssItem>) -> (feed: String)
    ensures
        feed@ == rss_document(*config, items_view(items@)),
{
    let ghost models = items_view(items@);
    let mut result = String::from_str(
        "<?xml version=\"1.0\" encoding=\"UTF-8\"?><rss version=\"2.0\"><channel>",
    );
    result.append(element_text("title", config.title).as_str());
    result.append(element_text("link", config.link).as_str());
    result.append(element_text("description", config.description).as_str());
    match config.language {
        Some(code) => {
            result.append(element_text("language", code).as_str());
        },
        None => {
            assert(result@ + Seq::<char>::empty() =~= result@);
        },
    }
    let mut i: usize = 0;
    assert(models.take(0) =~= Seq::<ItemModel>::empty());
    assert(result@ + Seq::<char>::empty() =~= result@);
    while i < items.len()
        invariant
            i <= items.len(),
            models == items_view(items@),
            result@ == channel_head(*config) + items_xml(models.take(i as int)),
        decreases items.len() - i,
    {
        let entry = item_text(&items[i]);
        proof {
            let before = models.take(i as int);
            let now = models.take(i + 1);
            assert(now.drop_last() =~= before);
            assert(now.last() == items@[i as int]@);
            assert((channel_head(*config) + items_xml(before)) + entry@ =~= channel_head(*config)
                + (items_xml(before) + entry@));
        }
        result.append(entry.as_str());
        i = i + 1;
    }
    assert(models.take(i as int) =~= models);
    let mut feed = replace_char(result.as_str(), '\n', "");
    proof {
        reveal_strlit("");
        assert(""@ =~= Seq::<char>::empty());
    }
    feed.append("</channel></rss>");
    feed
}

/// Asks a record for its six texts.
fn item_of<T: Rss>(record: &T) -> (item: RssItem)
    ensures
        answers_of(record, item),
{
    RssItem {
        title: record.get_title(),
        link: record.get_link(),
        description: record.get_description(),
        guid: record.get_guid(),
        author: record.get_author(),
        category: record.get_category(),
    }
}

/// Renders `items` as an RSS 2.0 document under the channel that `config`
/// describes: each record is asked for its six texts, in the order of
/// `items`, and the texts are rendered as [`render`] does. The feed is
/// therefore the document of as many items as there are records, and the
/// item of each record holds what that record answered.
pub fn generate_rss<T: Rss>(config: &RssChannelConfig, items: &Vec<T>) -> (feed: String)
    ensures
        exists|texts: Seq<RssItem>|
            {
                &&& texts.len() == items.len()
                &&& forall|i: int|
                    0 <= i < items.len() ==> answers_of(&items@[i], #[trigger] texts[i])
                &&& feed@ == #[trigger] rss_document(*config, items_view(texts))
            },
{
    let mut texts: Vec<RssItem> = Vec::new();
    let mut i: usize = 0;
    while i < items.len()
        invariant
            i <= items.len(),
            texts.len() == i,
            forall|k: int| 0 <= k < i ==> answers_of(&items@[k], #[trigger] texts@[k]),
        decreases items.len() - i,
    {
        texts.push(item_of(&items[i]));
        i = i + 1;
    }
    render(config, &texts)
}

/// Whether `item` holds what `record` answers when it is asked for its six
/// texts: each text is an answer of the method that tells it.
pub open spec fn answers_of<T: Rss>(record: &T, item: RssItem) -> bool {
    &&& call_ensures(T::get_title, (record,), item.title)
    &&& call_ensures(T::get_link, (record,), item.link)
    &&& call_ensures(T::get_description, (record,), item.description)
    &&& call_ensures(T::get_guid, (record,), item.guid)
    &&& call_ensures(T::get_author, (record,), item.author)
    &&& call_ensures(T::get_category, (record,), item.category)
}

} // verus!
