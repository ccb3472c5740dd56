use vstd::prelude::*;

verus! {

/// One meme, as one response of the meme service describes it.
#[derive(Debug)]
pub struct Meme {
    /// The address of the post that the meme comes from.
    pub post_link: String,
    /// The post's title.
    pub title: String,
    /// The address of the image itself.
    pub url: String,
    /// The name of whoever posted it.
    pub author: String,
}

/// The block that presents one meme: four labelled lines.
pub open spec fn describe_text(m: Meme) -> Seq<char> {
    "Title: "@ + m.title@ + "\nAuthor: "@ + m.author@ + "\nLink: "@ + m.post_link@
        + "\nMeme URL: "@ + m.url@
}

impl Meme {
    /// A meme from its four fields.
    pub fn new(post_link: String, title: String, url: String, author: String) -> (r: Meme)
        ensures
            r.post_link == post_link,
            r.title == title,
            r.url == url,
            r.author == author,
    {
        Meme { post_link, title, url, author }
    }

    /// The block that presents this meme: its title, author, post link and
    /// image address, one labelled line each, without a final line break.
    pub fn describe(&self) -> (r: String)
        ensures
            r@ == describe_text(*self),
    {
        let mut s = String::from_str("Title: ");
        s.append(self.title.as_str());
        s.append("\nAuthor: ");
        s.append(self.author.as_str());
        s.append("\nLink: ");
        s.append(self.post_link.as_str());
        s.append("\nMeme URL: ");
        s.append(self.url.as_str());
        assert(s@ =~= describe_text(*self));
        s
    }
}

} // verus!
